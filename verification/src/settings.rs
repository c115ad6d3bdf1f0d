//! The settings read/write surface: pass-through content with a
//! defined answer for a settings file that was never written.

use vstd::prelude::*;
use vstd::string::StringExecFns;

verus! {

/// How a raw read of the settings file can fail, as the shell's I/O
/// layer reports it.
pub enum SettingsReadError {
    /// The file does not exist: a never-written settings file.
    NotFound,
    /// Any other I/O failure, with the OS's description of it.
    Other(String),
}

/// Model of the settings file: absent, or present with its content.
/// `write_settings` replaces the whole content, so the store after a
/// write holds exactly what was written.
pub open spec fn spec_store_after_write(content: Seq<char>) -> Option<Seq<char>> {
    Some(content)
}

/// The settings text the shell answers with, given what the file
/// system holds: the content when present, empty when absent.
pub open spec fn spec_settings_reply(store: Option<Seq<char>>) -> Seq<char> {
    match store {
        Some(content) => content,
        None => Seq::empty(),
    }
}

/// Turn a raw settings-file read outcome into the command's reply: the
/// content on success, an empty string when the file does not exist
/// (the shell then builds default settings), and a descriptive error
/// for any other failure.
pub fn settings_from_read(outcome: Result<String, SettingsReadError>) -> (r: Result<
    String,
    String,
>)
    ensures
        outcome matches Ok(c) ==> (r matches Ok(t) && t@ == spec_settings_reply(Some(c@))),
        outcome matches Err(SettingsReadError::NotFound) ==> (r matches Ok(t) && t@
            == spec_settings_reply(None)),
        outcome matches Err(SettingsReadError::Other(m)) ==> (r matches Err(e) && e@
            == "Failed to read settings file: "@ + m@),
{
    match outcome {
        Ok(content) => Ok(content),
        Err(SettingsReadError::NotFound) => Ok(String::new()),
        Err(SettingsReadError::Other(detail)) => {
            let mut e = String::from_str("Failed to read settings file: ");
            e.append(detail.as_str());
            Err(e)
        },
    }
}

/// The error reply for a failed settings write.
pub fn write_settings_error(detail: &str) -> (r: String)
    ensures
        r@ == "Failed to write settings file: "@ + detail@,
{
    let mut e = String::from_str("Failed to write settings file: ");
    e.append(detail);
    e
}

/// The error reply when the settings file's directory cannot be made.
pub fn create_dir_error(detail: &str) -> (r: String)
    ensures
        r@ == "Failed to create directory: "@ + detail@,
{
    let mut e = String::from_str("Failed to create directory: ");
    e.append(detail);
    e
}

/// Law (settings round trip): writing content `x` and then reading
/// answers exactly `x`; reading a never-written settings file answers
/// the empty string, not an error.
pub proof fn lemma_settings_round_trip(x: Seq<char>)
    ensures
        spec_settings_reply(spec_store_after_write(x)) == x,
        spec_settings_reply(None) =~= Seq::<char>::empty(),
{
}

} // verus!
