//! The client's settings, the part of them a user edits, and the
//! configuration derived from them.

use vstd::prelude::*;
use vstd::string::*;
use crate::config::MusicUploaderClientConfig;

verus! {

/// The part size, in megabytes, when the settings name none.
pub const DEFAULT_PART_SIZE_MB: u32 = 5;

/// Bytes in a megabyte.
pub const MEGABYTE_BYTES: u32 = 1_000_000;

/// The first line of the startup message of a successful boot.
pub const SUCCESS_MESSAGE: &'static str = "Boot Success :)";

/// The stored settings of the client.
#[derive(Clone)]
pub struct Settings {
    pub user: String,
    pub password: String,
    pub valid_extensions: Vec<String>,
    pub server_url: String,
    pub max_part_size_mb: Option<u32>,
}

/// The settings a user edits.
pub struct UserEditableSettings {
    pub user: String,
    pub password: String,
    pub server_url: String,
    pub max_part_size_mb: u32,
}

/// Settings as loaded at startup, with the message to show the user.
pub struct LoadSettingsResult {
    pub settings: Settings,
    pub startup_message: String,
}

/// The answer to a request for the editable settings.
pub struct GetSettingsResult {
    pub settings: Option<UserEditableSettings>,
    pub success: bool,
}

/// The part size in megabytes that `setting` stands for.
pub open spec fn part_size_mb_of(setting: Option<u32>) -> nat {
    match setting {
        Some(mb) => mb as nat,
        None => DEFAULT_PART_SIZE_MB as nat,
    }
}

/// `mb` megabytes in bytes, capped at the largest `u32`.
pub open spec fn part_size_bytes(mb: nat) -> nat {
    if mb * (MEGABYTE_BYTES as nat) <= u32::MAX {
        mb * (MEGABYTE_BYTES as nat)
    } else {
        u32::MAX as nat
    }
}

impl Settings {
    /// The request configuration these settings give; the part size is the
    /// configured (or default) number of megabytes in bytes, capped at the
    /// largest `u32`.
    pub fn get_config(&self) -> (r: MusicUploaderClientConfig)
        ensures
            r.user == self.user,
            r.password == self.password,
            r.server_url == self.server_url,
            r.max_upload_part_size as nat == part_size_bytes(part_size_mb_of(self.max_part_size_mb)),
    {
        let mb = match self.max_part_size_mb {
            Some(mb) => mb,
            None => DEFAULT_PART_SIZE_MB,
        };
        let bytes = if mb <= u32::MAX / MEGABYTE_BYTES {
            mb * MEGABYTE_BYTES
        } else {
            u32::MAX
        };
        MusicUploaderClientConfig {
            user: self.user.clone(),
            password: self.password.clone(),
            server_url: self.server_url.clone(),
            max_upload_part_size: bytes,
        }
    }

    /// The part of these settings a user edits; the part size is the
    /// configured (or default) number of megabytes.
    pub fn get_user_editable_settings(&self) -> (r: UserEditableSettings)
        ensures
            r.user == self.user,
            r.password == self.password,
            r.server_url == self.server_url,
            r.max_part_size_mb as nat == part_size_mb_of(self.max_part_size_mb),
    {
        UserEditableSettings {
            user: self.user.clone(),
            password: self.password.clone(),
            server_url: self.server_url.clone(),
            max_part_size_mb: match self.max_part_size_mb {
                Some(mb) => mb,
                None => DEFAULT_PART_SIZE_MB,
            },
        }
    }

    /// Takes over the user's edits; the valid extensions stay.
    pub fn update(&mut self, user_editable_settings: UserEditableSettings)
        ensures
            final(self).user == user_editable_settings.user,
            final(self).password == user_editable_settings.password,
            final(self).server_url == user_editable_settings.server_url,
            final(self).max_part_size_mb == Some(user_editable_settings.max_part_size_mb),
            final(self).valid_extensions == old(self).valid_extensions,
    {
        self.user = user_editable_settings.user;
        self.password = user_editable_settings.password;
        self.server_url = user_editable_settings.server_url;
        self.max_part_size_mb = Some(user_editable_settings.max_part_size_mb);
    }
}

impl GetSettingsResult {
    /// A successful answer carrying `settings`.
    pub fn success(settings: UserEditableSettings) -> (r: Self)
        ensures
            r.success,
            r.settings == Some(settings),
    {
        GetSettingsResult { settings: Some(settings), success: true }
    }

    /// A failed answer, with no settings.
    pub fn fail() -> (r: Self)
        ensures
            !r.success,
            r.settings is None,
    {
        GetSettingsResult { settings: None, success: false }
    }
}

/// The message shown at startup: after a successful load, the boot success
/// line, a newline and the load's own message; after a failed one, the
/// failure's message.
pub fn startup_message(loaded: &Result<LoadSettingsResult, String>) -> (r: String)
    ensures
        match loaded {
            Ok(l) => r@ == SUCCESS_MESSAGE@ + "\n"@ + l.startup_message@,
            Err(m) => r@ == m@,
        },
{
    match loaded {
        Ok(l) => {
            let mut r = String::from_str(SUCCESS_MESSAGE);
            r.append("\n");
            r.append(l.startup_message.as_str());
            r
        },
        Err(m) => m.clone(),
    }
}

} // verus!
