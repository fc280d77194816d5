//! The Windows resolution rules on concrete snapshots.

use dirs::error::DirsError;
use dirs::windows::sys::{decode_wide, get_known_folder_path, KnownFolder, WinEnv};
use dirs::windows::Directories;
use dirs::{Directories as Facade, Environment};

fn wide(s: &str) -> Vec<u16> {
    s.encode_utf16().collect()
}

fn all_ok() -> WinEnv {
    WinEnv {
        temp_dir: "C:\\Users\\bob\\AppData\\Local\\Temp".to_owned(),
        roaming_app_data: Ok(wide("C:\\Users\\bob\\AppData\\Roaming")),
        local_app_data: Ok(wide("C:\\Users\\bob\\AppData\\Local")),
        user_program_files: Ok(wide("C:\\Users\\bob\\AppData\\Local\\Programs")),
        program_data: Ok(wide("C:\\ProgramData")),
    }
}

#[test]
fn known_folder_layout() {
    let d = Directories::with_prefix("Foobar", &all_ok()).unwrap();
    assert_eq!(
        d.cache_home().as_str(),
        "C:\\Users\\bob\\AppData\\Local\\Temp\\Foobar"
    );
    assert_eq!(
        d.config_home().as_str(),
        "C:\\Users\\bob\\AppData\\Roaming\\Foobar"
    );
    assert_eq!(
        d.bin_home().as_str(),
        "C:\\Users\\bob\\AppData\\Local\\Programs\\Foobar"
    );
    assert_eq!(d.data_home().as_str(), "C:\\Users\\bob\\AppData\\Local\\Foobar");
}

#[test]
fn temp_never_consults_known_folder_responses() {
    // every Known Folder call has failed, yet the Temp special case still
    // resolves: it reads only the temporary directory
    let e = WinEnv {
        temp_dir: "C:\\Temp".to_owned(),
        roaming_app_data: Err(0x80070005),
        local_app_data: Err(0x80070005),
        user_program_files: Err(0x80070005),
        program_data: Err(0x80070005),
    };
    let p = get_known_folder_path(KnownFolder::Temp, &e).unwrap();
    assert_eq!(p.as_str(), "C:\\Temp");
}

#[test]
fn failed_call_reports_status_code_in_hex() {
    let mut e = all_ok();
    e.roaming_app_data = Err(0x80070005);
    let r = Directories::with_prefix("Foobar", &e);
    match r {
        Err(DirsError::PlatformError(m)) => {
            assert_eq!(m.as_str(), "SHGetKnownFolderPath returned 0x80070005");
        }
        _ => panic!("expected a platform error"),
    }
}

#[test]
fn zero_status_code_renders_as_single_digit() {
    let r = get_known_folder_path(
        KnownFolder::LocalAppData,
        &WinEnv {
            temp_dir: String::new(),
            roaming_app_data: Ok(Vec::new()),
            local_app_data: Err(0),
            user_program_files: Ok(Vec::new()),
            program_data: Ok(Vec::new()),
        },
    );
    match r {
        Err(DirsError::PlatformError(m)) => {
            assert_eq!(m.as_str(), "SHGetKnownFolderPath returned 0x0");
        }
        _ => panic!("expected a platform error"),
    }
}

#[test]
fn lone_surrogate_is_a_parse_error() {
    let mut e = all_ok();
    e.user_program_files = Ok(vec![0x0043, 0xD800, 0x003A]);
    let r = Directories::with_prefix("Foobar", &e);
    match r {
        Err(DirsError::ParseError(m)) => {
            assert_eq!(m.as_str(), "invalid utf-16");
        }
        _ => panic!("expected a parse error"),
    }
}

#[test]
fn first_failure_wins() {
    // configuration is queried before executables: its error is reported
    let mut e = all_ok();
    e.roaming_app_data = Err(0x1);
    e.user_program_files = Err(0x2);
    let r = Directories::with_prefix("Foobar", &e);
    match r {
        Err(DirsError::PlatformError(m)) => {
            assert_eq!(m.as_str(), "SHGetKnownFolderPath returned 0x1");
        }
        _ => panic!("expected a platform error"),
    }
}

#[test]
fn decode_wide_handles_surrogate_pairs() {
    let units = wide("C:\\data\\😀");
    assert!(units.iter().any(|u| 0xD800 <= *u && *u < 0xE000));
    let s = decode_wide(&units).unwrap();
    assert_eq!(s.as_str(), "C:\\data\\😀");
}

#[test]
fn decode_wide_empty_is_empty() {
    let s = decode_wide(&Vec::new()).unwrap();
    assert_eq!(s.as_str(), "");
}

#[test]
fn decode_wide_rejects_unpaired_high_surrogate_at_end() {
    let r = decode_wide(&vec![0x0041, 0xD83D]);
    assert!(matches!(r, Err(DirsError::ParseError(_))));
}

#[test]
fn decode_wide_rejects_lone_low_surrogate() {
    let r = decode_wide(&vec![0xDE00, 0x0041]);
    assert!(matches!(r, Err(DirsError::ParseError(_))));
}

#[test]
fn guids_match_platform_identifiers() {
    let g = KnownFolder::RoamingAppData.to_guid().unwrap();
    assert_eq!(g.data1, 0x3EB685DB);
    assert_eq!(g.data2, 0x65F9);
    assert_eq!(g.data3, 0x4CF6);
    assert_eq!(g.data4, [0xA0, 0x3A, 0xE3, 0xEF, 0x65, 0x72, 0x9F, 0x3D]);

    let g = KnownFolder::LocalAppData.to_guid().unwrap();
    assert_eq!(g.data1, 0xF1B32785);
    assert_eq!(g.data2, 0x6FBA);
    assert_eq!(g.data3, 0x4FCF);
    assert_eq!(g.data4, [0x9D, 0x55, 0x7B, 0x8E, 0x7F, 0x15, 0x70, 0x91]);

    let g = KnownFolder::UserProgramFiles.to_guid().unwrap();
    assert_eq!(g.data1, 0x5CD7AEE2);
    assert_eq!(g.data2, 0x2219);
    assert_eq!(g.data3, 0x4A67);
    assert_eq!(g.data4, [0xB8, 0x5D, 0x6C, 0x9C, 0xE1, 0x56, 0x60, 0xCB]);

    let g = KnownFolder::ProgramData.to_guid().unwrap();
    assert_eq!(g.data1, 0x62AB5D82);
    assert_eq!(g.data2, 0xFDC1);
    assert_eq!(g.data3, 0x4DC3);
    assert_eq!(g.data4, [0xA9, 0xDD, 0x07, 0x0D, 0x1D, 0x49, 0x5D, 0x97]);
}

#[test]
fn temp_has_no_guid() {
    assert!(KnownFolder::Temp.to_guid().is_none());
}

#[test]
fn windows_facade_matches_platform_resolver() {
    let d = Facade::with_prefix("Foobar", &Environment::Windows(all_ok())).unwrap();
    assert_eq!(
        d.config_home().as_str(),
        "C:\\Users\\bob\\AppData\\Roaming\\Foobar"
    );
    assert_eq!(
        d.cache_home().as_str(),
        "C:\\Users\\bob\\AppData\\Local\\Temp\\Foobar"
    );
}

#[test]
fn program_data_resolves_from_its_own_response() {
    let p = get_known_folder_path(KnownFolder::ProgramData, &all_ok()).unwrap();
    assert_eq!(p.as_str(), "C:\\ProgramData");
}

#[test]
fn decode_wide_agrees_with_std_on_valid_input() {
    let s = "C:\\Users\\Ωlga\\𝄞-data";
    let units: Vec<u16> = s.encode_utf16().collect();
    assert_eq!(decode_wide(&units).unwrap(), String::from_utf16(&units).unwrap());
    assert_eq!(decode_wide(&units).unwrap().as_str(), s);
}
