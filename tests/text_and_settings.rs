use music_uploader::config::MusicUploaderClientConfig;
use music_uploader::error::{result_to_string, MusicUploaderClientError};
use music_uploader::settings::{
    startup_message, GetSettingsResult, LoadSettingsResult, Settings, UserEditableSettings,
};
use music_uploader::text::decimal_string;
use music_uploader::transport::response_outcome;

fn settings(mb: Option<u32>) -> Settings {
    Settings {
        user: "me".to_string(),
        password: "secret".to_string(),
        valid_extensions: vec!["mp3".to_string(), "flac".to_string()],
        server_url: "http://music.local".to_string(),
        max_part_size_mb: mb,
    }
}

#[test]
fn decimal_rendering() {
    assert_eq!(decimal_string(0), "0");
    assert_eq!(decimal_string(7), "7");
    assert_eq!(decimal_string(1234), "1234");
    assert_eq!(decimal_string(u64::MAX), "18446744073709551615");
}

#[test]
fn error_texts() {
    assert_eq!(MusicUploaderClientError::UnhappyResponse(404, "nope".to_string()).to_string(), "unhappy response: (404) nope");
    assert_eq!(
        MusicUploaderClientError::ErrorFromServer("refused".to_string()).to_string(),
        "Recieved an error from the server: refused"
    );
    assert_eq!(MusicUploaderClientError::BadConfig("x".to_string()).to_string(), "Local settings is misconfigured: x");
    assert_eq!(
        MusicUploaderClientError::FileReadError("/a.mp3".to_string(), "not found".to_string()).to_string(),
        "Failed to read the file /a.mp3 because: not found"
    );
    assert_eq!(MusicUploaderClientError::AlbumUploadFailure("y".to_string()).to_string(), "Failed to upload album: y");
    assert_eq!(
        MusicUploaderClientError::ParseServerResponseFailure("z".to_string()).to_string(),
        "Failed to parse server response: z"
    );
    assert_eq!(MusicUploaderClientError::TooManyParts(300).to_string(), "Cannot upload a file with this many parts: 300");
    assert_eq!(MusicUploaderClientError::EmptyPart(4).to_string(), "Tried to upload a zero size part for index: 4");
}

#[test]
fn result_strings() {
    assert_eq!(result_to_string(Ok("done".to_string())), Ok("Success: done".to_string()));
    assert_eq!(
        result_to_string(Err(MusicUploaderClientError::BadConfig("Client did not succesfully boot".to_string()))),
        Err("Failure: Local settings is misconfigured: Client did not succesfully boot".to_string())
    );
}

#[test]
fn urls_join_server_and_route() {
    let config = settings(None).get_config();
    assert_eq!(config.build_url("upload"), "http://music.local/upload");
}

#[test]
fn config_uses_default_part_size() {
    let config = settings(None).get_config();
    assert_eq!(config.user, "me");
    assert_eq!(config.password, "secret");
    assert_eq!(config.server_url, "http://music.local");
    assert_eq!(config.max_upload_part_size, 5_000_000);
}

#[test]
fn config_uses_configured_part_size() {
    assert_eq!(settings(Some(3)).get_config().max_upload_part_size, 3_000_000);
    assert_eq!(settings(Some(0)).get_config().max_upload_part_size, 0);
}

#[test]
fn config_caps_huge_part_size() {
    assert_eq!(settings(Some(4294)).get_config().max_upload_part_size, 4_294_000_000);
    assert_eq!(settings(Some(4295)).get_config().max_upload_part_size, u32::MAX);
}

#[test]
fn editable_settings_round_trip() {
    let mut s = settings(None);
    let editable = s.get_user_editable_settings();
    assert_eq!(editable.max_part_size_mb, 5);
    assert_eq!(editable.user, "me");
    s.update(UserEditableSettings {
        user: "you".to_string(),
        password: "pw".to_string(),
        server_url: "https://other".to_string(),
        max_part_size_mb: 8,
    });
    assert_eq!(s.user, "you");
    assert_eq!(s.password, "pw");
    assert_eq!(s.server_url, "https://other");
    assert_eq!(s.max_part_size_mb, Some(8));
    assert_eq!(s.valid_extensions, vec!["mp3".to_string(), "flac".to_string()]);
    assert_eq!(s.get_config().max_upload_part_size, 8_000_000);
}

#[test]
fn settings_results() {
    let ok = GetSettingsResult::success(settings(Some(2)).get_user_editable_settings());
    assert!(ok.success);
    assert_eq!(ok.settings.unwrap().max_part_size_mb, 2);
    let failed = GetSettingsResult::fail();
    assert!(!failed.success);
    assert!(failed.settings.is_none());
}

#[test]
fn startup_messages() {
    let loaded: Result<LoadSettingsResult, String> =
        Ok(LoadSettingsResult { settings: settings(None), startup_message: "found it".to_string() });
    assert_eq!(startup_message(&loaded), "Boot Success :)\nfound it");
    let failed: Result<LoadSettingsResult, String> = Err("no settings".to_string());
    assert_eq!(startup_message(&failed), "no settings");
}

#[test]
fn response_statuses() {
    assert_eq!(response_outcome(200, "ok".to_string()).unwrap(), "ok");
    assert_eq!(response_outcome(299, "ok".to_string()).unwrap(), "ok");
    assert!(matches!(
        response_outcome(300, "moved".to_string()),
        Err(MusicUploaderClientError::UnhappyResponse(300, ref b)) if b == "moved"
    ));
    assert!(matches!(
        response_outcome(199, String::new()),
        Err(MusicUploaderClientError::UnhappyResponse(199, _))
    ));
    assert!(matches!(
        response_outcome(401, "unauthorized".to_string()),
        Err(MusicUploaderClientError::UnhappyResponse(401, _))
    ));
}

#[test]
fn config_fields_are_plain() {
    let c = MusicUploaderClientConfig {
        user: "u".to_string(),
        password: "p".to_string(),
        server_url: "http://h".to_string(),
        max_upload_part_size: 1,
    };
    assert_eq!(c.build_url("conn"), "http://h/conn");
}
