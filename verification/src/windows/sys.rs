//! The Windows Known-Folder accessor.
//!
//! The OS boundary itself — the Known Folder system call, the walk over the
//! returned foreign buffer and its release — lives with the caller; this
//! module holds everything that can be computed from what that boundary
//! hands over: the translation of the abstract `KnownFolder` enumeration to
//! its fixed 128-bit identifier, the decoding of the returned
//! wide-character units into text, and the uniform error reporting around
//! the native status code.

use vstd::prelude::*;
use vstd::string::*;
use vstd::utf8::is_scalar;
use vstd::utf8::char_u32_cast;
use crate::error::DirsError;

verus! {

/// Relies on `char::from_u32` of std: it returns the character with the
/// given code exactly when the code is a Unicode scalar value (not a
/// surrogate, at most `0x10FFFF`), and `None` otherwise.
pub assume_specification [ char::from_u32 ](v: u32) -> (r: Option<char>)
    ensures
        r matches Some(c) ==> c as u32 == v,
        r is Some <==> is_scalar(v),
;

/// Relies on `String::push` of std: it appends the given character to the
/// end of the string.
pub assume_specification [ String::push ](s: &mut String, c: char)
    ensures
        final(s)@ == old(s)@.push(c),
;

/// True for a UTF-16 unit that opens a surrogate pair.
pub open spec fn is_high_surrogate(u: u16) -> bool {
    0xD800 <= u < 0xDC00
}

/// True for a UTF-16 unit that closes a surrogate pair.
pub open spec fn is_low_surrogate(u: u16) -> bool {
    0xDC00 <= u < 0xE000
}

/// The Unicode scalar value encoded by a surrogate pair.
pub open spec fn combined_scalar(h: u16, l: u16) -> u32
    recommends
        is_high_surrogate(h),
        is_low_surrogate(l),
{
    (0x10000 + (h - 0xD800) * 0x400 + (l - 0xDC00)) as u32
}

/// True when the sequence of 16-bit units is well-formed UTF-16: every
/// high surrogate is followed by a low surrogate and no low surrogate
/// stands on its own.
pub open spec fn utf16_valid(units: Seq<u16>) -> bool
    decreases units.len(),
{
    if units.len() == 0 {
        true
    } else if !is_high_surrogate(units[0]) && !is_low_surrogate(units[0]) {
        utf16_valid(units.skip(1))
    } else if is_high_surrogate(units[0]) && units.len() >= 2 && is_low_surrogate(units[1]) {
        utf16_valid(units.skip(2))
    } else {
        false
    }
}

/// The characters encoded by a well-formed UTF-16 unit sequence.
pub open spec fn utf16_decode(units: Seq<u16>) -> Seq<char>
    recommends
        utf16_valid(units),
    decreases units.len(),
{
    if units.len() == 0 {
        Seq::empty()
    } else if !is_high_surrogate(units[0]) && !is_low_surrogate(units[0]) {
        seq![(units[0] as u32) as char] + utf16_decode(units.skip(1))
    } else if is_high_surrogate(units[0]) && units.len() >= 2 && is_low_surrogate(units[1]) {
        seq![combined_scalar(units[0], units[1]) as char] + utf16_decode(units.skip(2))
    } else {
        Seq::empty()
    }
}

/// Well-formedness and decoding distribute over splitting a unit sequence
/// after a well-formed front part.
proof fn lemma_utf16_concat(a: Seq<u16>, b: Seq<u16>)
    requires
        utf16_valid(a),
    ensures
        utf16_valid(a + b) == utf16_valid(b),
        utf16_decode(a + b) == utf16_decode(a) + utf16_decode(b),
    decreases a.len(),
{
    if a.len() == 0 {
        assert(a + b =~= b);
        assert(utf16_decode(a) + utf16_decode(b) =~= utf16_decode(b));
    } else if !is_high_surrogate(a[0]) && !is_low_surrogate(a[0]) {
        assert((a + b)[0] == a[0]);
        assert((a + b).skip(1) =~= a.skip(1) + b);
        lemma_utf16_concat(a.skip(1), b);
        assert(utf16_decode(a + b) =~= utf16_decode(a) + utf16_decode(b));
    } else {
        assert(is_high_surrogate(a[0]) && a.len() >= 2 && is_low_surrogate(a[1]));
        assert((a + b)[0] == a[0]);
        assert((a + b)[1] == a[1]);
        assert((a + b).skip(2) =~= a.skip(2) + b);
        lemma_utf16_concat(a.skip(2), b);
        assert(utf16_decode(a + b) =~= utf16_decode(a) + utf16_decode(b));
    }
}

/// Decodes a wide-character (UTF-16) buffer, as handed over by the OS
/// boundary, into text. Fails with `ParseError` exactly when the units are
/// not well-formed UTF-16.
pub fn decode_wide(units: &Vec<u16>) -> (r: Result<String, DirsError>)
    ensures
        utf16_valid(units@) ==> (r matches Ok(s) && s@ == utf16_decode(units@)),
        !utf16_valid(units@) ==> (r matches Err(e) && e matches DirsError::ParseError(m)
            && m@ == "invalid utf-16"@),
{
    let ghost all = units@;
    let n = units.len();
    let mut out = String::new();
    let mut i: usize = 0;
    while i < n
        invariant
            i <= n,
            n == all.len(),
            all == units@,
            utf16_valid(all.subrange(0, i as int)),
            out@ == utf16_decode(all.subrange(0, i as int)),
        decreases n - i,
    {
        let ghost p = all.subrange(0, i as int);
        let u = units[i];
        if u < 0xD800 || u >= 0xE000 {
            proof {
                assert(is_scalar(u as u32));
            }
            let c = match char::from_u32(u as u32) {
                Option::Some(c) => c,
                Option::None => vstd::pervasive::unreached(),
            };
            out.push(c);
            proof {
                let p2 = all.subrange(0, i as int + 1);
                assert(p2 =~= p + seq![u]);
                assert(seq![u].skip(1) =~= Seq::<u16>::empty());
                assert(utf16_valid(Seq::<u16>::empty()));
                assert(utf16_decode(Seq::<u16>::empty()) == Seq::<char>::empty());
                assert(utf16_valid(seq![u]));
                assert(utf16_decode(seq![u]) =~= seq![(u as u32) as char]);
                lemma_utf16_concat(p, seq![u]);
                char_u32_cast(c, u as u32);
                assert(out@ =~= utf16_decode(p2));
            }
            i = i + 1;
        } else if u < 0xDC00 && i + 1 < n && {
            let v = units[i + 1];
            0xDC00 <= v && v < 0xE000
        } {
            let v = units[i + 1];
            let h32: u32 = (u - 0xD800) as u32;
            let l32: u32 = (v - 0xDC00) as u32;
            let code: u32 = 0x10000 + h32 * 0x400 + l32;
            proof {
                assert(code == combined_scalar(u, v));
                assert(is_scalar(code));
            }
            let c = match char::from_u32(code) {
                Option::Some(c) => c,
                Option::None => vstd::pervasive::unreached(),
            };
            out.push(c);
            proof {
                let p2 = all.subrange(0, i as int + 2);
                assert(p2 =~= p + seq![u, v]);
                assert(seq![u, v].skip(2) =~= Seq::<u16>::empty());
                assert(utf16_valid(Seq::<u16>::empty()));
                assert(utf16_decode(Seq::<u16>::empty()) == Seq::<char>::empty());
                assert(utf16_valid(seq![u, v]));
                assert(utf16_decode(seq![u, v]) =~= seq![combined_scalar(u, v) as char]);
                lemma_utf16_concat(p, seq![u, v]);
                char_u32_cast(c, code);
                assert(out@ =~= utf16_decode(p2));
            }
            i = i + 2;
        } else {
            // a lone surrogate: the buffer is not valid UTF-16
            proof {
                let rest = all.skip(i as int);
                assert(all =~= p + rest);
                lemma_utf16_concat(p, rest);
                assert(rest[0] == all[i as int]);
                assert(rest.len() >= 2 ==> rest[1] == all[i as int + 1]);
                assert(!utf16_valid(rest));
                assert(!utf16_valid(all));
            }
            return Err(DirsError::ParseError("invalid utf-16".to_owned()));
        }
    }
    proof {
        assert(all.subrange(0, n as int) =~= all);
    }
    Ok(out)
}

/// The lowercase hexadecimal digit for a value below 16.
pub open spec fn hex_digit_spec(d: int) -> char {
    if d == 0 {
        '0'
    } else if d == 1 {
        '1'
    } else if d == 2 {
        '2'
    } else if d == 3 {
        '3'
    } else if d == 4 {
        '4'
    } else if d == 5 {
        '5'
    } else if d == 6 {
        '6'
    } else if d == 7 {
        '7'
    } else if d == 8 {
        '8'
    } else if d == 9 {
        '9'
    } else if d == 10 {
        'a'
    } else if d == 11 {
        'b'
    } else if d == 12 {
        'c'
    } else if d == 13 {
        'd'
    } else if d == 14 {
        'e'
    } else {
        'f'
    }
}

/// The minimal lowercase hexadecimal rendering of a value: no leading
/// zeros, a single digit for values below 16.
pub open spec fn hex_spec(v: nat) -> Seq<char>
    decreases v,
{
    if v < 16 {
        seq![hex_digit_spec(v as int)]
    } else {
        hex_spec(v / 16) + seq![hex_digit_spec((v % 16) as int)]
    }
}

/// Writes a value in minimal lowercase hexadecimal, most significant digit
/// first.
pub fn hex_u32(v: u32) -> (r: String)
    ensures
        r@ == hex_spec(v as nat),
    decreases v,
{
    proof {
        reveal_strlit("0123456789abcdef");
    }
    let digits = "0123456789abcdef";
    let d = (v % 16) as usize;
    let s = digits.substring_char(d, d + 1);
    proof {
        assert(s@ =~= seq![hex_digit_spec((v as int) % 16)]);
    }
    if v < 16 {
        s.to_owned()
    } else {
        let mut r = hex_u32(v / 16);
        r.append(s);
        r
    }
}

/// The Known Folders that the Windows resolver queries. `Temp` is special:
/// it has no stable identifier and is resolved through the system
/// temporary-directory accessor, never through the Known Folder API.
#[derive(Clone, Copy, PartialEq, Eq, Structural)]
pub enum KnownFolder {
    /// The per-user roaming application-data directory.
    RoamingAppData,
    /// The per-user local application-data directory.
    LocalAppData,
    /// The per-user program-files directory.
    UserProgramFiles,
    /// The system-wide application-data directory.
    ProgramData,
    /// The system temporary directory.
    Temp,
}

/// A 128-bit Windows folder identifier in its customary four-field form.
pub struct Guid {
    /// The leading 32-bit field.
    pub data1: u32,
    /// The first 16-bit field.
    pub data2: u16,
    /// The second 16-bit field.
    pub data3: u16,
    /// The trailing eight bytes.
    pub data4: [u8; 8],
}

/// True when the identifier holds exactly the given four fields.
pub open spec fn guid_is(g: Guid, d1: u32, d2: u16, d3: u16, d4: Seq<u8>) -> bool {
    g.data1 == d1 && g.data2 == d2 && g.data3 == d3 && g.data4@ == d4
}

impl KnownFolder {
    /// The fixed platform identifier of this folder, or `None` for `Temp`,
    /// which bypasses the identifier mechanism entirely.
    pub fn to_guid(&self) -> (r: Option<Guid>)
        ensures
            r is Some <==> !(*self is Temp),
            *self is RoamingAppData ==> guid_is(
                r->Some_0,
                1052149211,
                26105,
                19702,
                seq![160u8, 58, 227, 239, 101, 114, 159, 61],
            ),
            *self is LocalAppData ==> guid_is(
                r->Some_0,
                4055050117,
                28602,
                20431,
                seq![157u8, 85, 123, 142, 127, 21, 112, 145],
            ),
            *self is UserProgramFiles ==> guid_is(
                r->Some_0,
                1557638882,
                8729,
                19047,
                seq![184u8, 93, 108, 156, 225, 86, 96, 203],
            ),
            *self is ProgramData ==> guid_is(
                r->Some_0,
                1655397762,
                64961,
                19907,
                seq![169u8, 221, 7, 13, 29, 73, 93, 151],
            ),
    {
        match self {
            KnownFolder::RoamingAppData => {
                let g = Guid {
                    data1: 1052149211,
                    data2: 26105,
                    data3: 19702,
                    data4: [160, 58, 227, 239, 101, 114, 159, 61],
                };
                proof {
                    assert(g.data4@ =~= seq![160u8, 58, 227, 239, 101, 114, 159, 61]);
                }
                Option::Some(g)
            },
            KnownFolder::LocalAppData => {
                let g = Guid {
                    data1: 4055050117,
                    data2: 28602,
                    data3: 20431,
                    data4: [157, 85, 123, 142, 127, 21, 112, 145],
                };
                proof {
                    assert(g.data4@ =~= seq![157u8, 85, 123, 142, 127, 21, 112, 145]);
                }
                Option::Some(g)
            },
            KnownFolder::UserProgramFiles => {
                let g = Guid {
                    data1: 1557638882,
                    data2: 8729,
                    data3: 19047,
                    data4: [184, 93, 108, 156, 225, 86, 96, 203],
                };
                proof {
                    assert(g.data4@ =~= seq![184u8, 93, 108, 156, 225, 86, 96, 203]);
                }
                Option::Some(g)
            },
            KnownFolder::ProgramData => {
                let g = Guid {
                    data1: 1655397762,
                    data2: 64961,
                    data3: 19907,
                    data4: [169, 221, 7, 13, 29, 73, 93, 151],
                };
                proof {
                    assert(g.data4@ =~= seq![169u8, 221, 7, 13, 29, 73, 93, 151]);
                }
                Option::Some(g)
            },
            KnownFolder::Temp => Option::None,
        }
    }
}

/// A one-time snapshot of what the Windows OS boundary supplies: the
/// system temporary directory, and for each identifier-backed Known Folder
/// the outcome of its Known Folder system call — the wide-character units
/// of the returned buffer, as read up to its terminator, or the native
/// status code the call failed with.
pub struct WinEnv {
    /// The system temporary directory.
    pub temp_dir: String,
    /// Outcome of the call for `RoamingAppData`.
    pub roaming_app_data: Result<Vec<u16>, u32>,
    /// Outcome of the call for `LocalAppData`.
    pub local_app_data: Result<Vec<u16>, u32>,
    /// Outcome of the call for `UserProgramFiles`.
    pub user_program_files: Result<Vec<u16>, u32>,
    /// Outcome of the call for `ProgramData`.
    pub program_data: Result<Vec<u16>, u32>,
}

/// The recorded system-call outcome for an identifier-backed folder.
pub open spec fn response_spec(env: WinEnv, folder: KnownFolder) -> Result<Vec<u16>, u32>
    recommends
        !(folder is Temp),
{
    match folder {
        KnownFolder::RoamingAppData => env.roaming_app_data,
        KnownFolder::LocalAppData => env.local_app_data,
        KnownFolder::UserProgramFiles => env.user_program_files,
        KnownFolder::ProgramData => env.program_data,
        KnownFolder::Temp => arbitrary(),
    }
}

/// The message carried by a `PlatformError` for a call that failed with
/// the native status code `hr`.
pub open spec fn platform_message_spec(hr: u32) -> Seq<char> {
    "SHGetKnownFolderPath returned 0x"@ + hex_spec(hr as nat)
}

/// True when the snapshot lets the given folder resolve to a path: `Temp`
/// always does; any other folder needs a successful call whose buffer is
/// well-formed UTF-16.
pub open spec fn folder_ok(env: WinEnv, folder: KnownFolder) -> bool {
    folder is Temp || (response_spec(env, folder) matches Ok(units) && utf16_valid(units@))
}

/// The path that a resolvable folder resolves to.
pub open spec fn folder_path_spec(env: WinEnv, folder: KnownFolder) -> Seq<char>
    recommends
        folder_ok(env, folder),
{
    if folder is Temp {
        env.temp_dir@
    } else {
        utf16_decode(response_spec(env, folder)->Ok_0@)
    }
}

/// The error reported for a folder that does not resolve: the decoding
/// failure, or the native status code wrapped in its message.
pub open spec fn folder_error_spec(env: WinEnv, folder: KnownFolder, e: DirsError) -> bool
    recommends
        !folder_ok(env, folder),
{
    match response_spec(env, folder) {
        Result::Ok(_) => e matches DirsError::ParseError(m) && m@ == "invalid utf-16"@,
        Result::Err(hr) => e matches DirsError::PlatformError(m) && m@ == platform_message_spec(
            hr,
        ),
    }
}

/// Everything that resolving one folder from one snapshot promises.
pub open spec fn folder_result_spec(
    env: WinEnv,
    folder: KnownFolder,
    r: Result<String, DirsError>,
) -> bool {
    if folder_ok(env, folder) {
        r matches Ok(p) && p@ == folder_path_spec(env, folder)
    } else {
        r matches Err(e) && folder_error_spec(env, folder, e)
    }
}

/// Turns one recorded system-call outcome into a path or an error.
fn decode_response(resp: &Result<Vec<u16>, u32>) -> (r: Result<String, DirsError>)
    ensures
        *resp matches Ok(units) ==> (if utf16_valid(units@) {
            r matches Ok(p) && p@ == utf16_decode(units@)
        } else {
            r matches Err(e) && e matches DirsError::ParseError(m) && m@ == "invalid utf-16"@
        }),
        *resp matches Err(hr) ==> (r matches Err(e) && e matches DirsError::PlatformError(m) && m@
            == platform_message_spec(hr)),
{
    match resp {
        Result::Ok(units) => decode_wide(units),
        Result::Err(hr) => {
            let mut m = "SHGetKnownFolderPath returned 0x".to_owned();
            let hex = hex_u32(*hr);
            m.append(hex.as_str());
            Err(DirsError::PlatformError(m))
        },
    }
}

/// Resolves the filesystem path of one Known Folder from the snapshot.
/// `Temp` reads the temporary directory and never consults the recorded
/// Known Folder outcomes; every other folder decodes the outcome of its
/// own system call.
pub fn get_known_folder_path(folder: KnownFolder, env: &WinEnv) -> (r: Result<String, DirsError>)
    ensures
        folder_result_spec(*env, folder, r),
{
    match folder {
        KnownFolder::Temp => Ok(env.temp_dir.clone()),
        KnownFolder::RoamingAppData => decode_response(&env.roaming_app_data),
        KnownFolder::LocalAppData => decode_response(&env.local_app_data),
        KnownFolder::UserProgramFiles => decode_response(&env.user_program_files),
        KnownFolder::ProgramData => decode_response(&env.program_data),
    }
}

/// The `Temp` special case reads nothing but the temporary directory: any
/// two snapshots that agree on it resolve `Temp` to the same path,
/// whatever their recorded Known Folder outcomes hold.
pub proof fn lemma_temp_reads_only_temp_dir(
    e1: WinEnv,
    e2: WinEnv,
    r1: Result<String, DirsError>,
    r2: Result<String, DirsError>,
)
    requires
        e1.temp_dir@ == e2.temp_dir@,
        folder_result_spec(e1, KnownFolder::Temp, r1),
        folder_result_spec(e2, KnownFolder::Temp, r2),
    ensures
        r1 matches Ok(p1) && r2 matches Ok(p2) && p1@ == p2@,
{
}

} // verus!
