//! The notification's body text, from an inline message, a message file, or both.

use crate::opt_view;
use vstd::prelude::*;

verus! {

/// The one failure that stops a notification: a required message file could
/// not be read.
#[derive(Clone, Copy, Debug, PartialEq, Eq, Structural)]
pub enum MessageError {
    RequiredFileMissing,
}

/// The text from the configured sources, before any code fencing.
///
/// `file_contents` is what reading `message_file` gave (`None`: it could not be read).
pub open spec fn spec_source_text(
    message_file: Option<Seq<char>>,
    message: Option<Seq<char>>,
    fail_if_missing: bool,
    file_contents: Option<Seq<char>>,
) -> Result<Option<Seq<char>>, MessageError> {
    match (message_file, message) {
        (Some(file), Some(text)) => Ok(
            Some(
                match file_contents {
                    Some(c) => c,
                    None => text,
                },
            ),
        ),
        (Some(file), None) => match file_contents {
            Some(c) => Ok(Some(c)),
            None => if fail_if_missing {
                Err(MessageError::RequiredFileMissing)
            } else {
                Ok(Some("error reading file "@ + file))
            },
        },
        (None, Some(text)) => Ok(Some(text)),
        (None, None) => Ok(None),
    }
}

/// `text` inside a code fence.
pub open spec fn fenced(text: Seq<char>) -> Seq<char> {
    "```"@ + text + "```"@
}

/// The resolved text, fenced as code when `as_code` holds.
pub open spec fn spec_text(
    message_file: Option<Seq<char>>,
    message: Option<Seq<char>>,
    fail_if_missing: bool,
    file_contents: Option<Seq<char>>,
    as_code: bool,
) -> Result<Option<Seq<char>>, MessageError> {
    match spec_source_text(message_file, message, fail_if_missing, file_contents) {
        Ok(Some(t)) => Ok(Some(if as_code { fenced(t) } else { t })),
        other => other,
    }
}

/// The view of a resolved text.
pub open spec fn text_result_view(r: Result<Option<String>, MessageError>) -> Result<
    Option<Seq<char>>,
    MessageError,
> {
    match r {
        Ok(t) => Ok(opt_view(t)),
        Err(e) => Err(e),
    }
}

/// Resolves the body text. A file and an inline text together: the file's
/// contents, else the text. A file alone: its contents, else a failure when it
/// is required and a diagnostic naming it when not. Inline text alone: the text.
/// Neither: no text. Any text is then fenced as code when `as_code` holds.
///
/// `file_contents` is what reading `message_file` gave (`None`: it could not be
/// read); it is not looked at when there is no message file.
pub fn resolve_text(
    message_file: &Option<String>,
    message: &Option<String>,
    fail_if_missing: bool,
    file_contents: Option<String>,
    as_code: bool,
) -> (r: Result<Option<String>, MessageError>)
    ensures
        text_result_view(r) == spec_text(
            opt_view(*message_file),
            opt_view(*message),
            fail_if_missing,
            opt_view(file_contents),
            as_code,
        ),
{
    let text = match (message_file, message) {
        (Some(file), Some(text)) => match file_contents {
            Some(c) => c,
            None => text.clone(),
        },
        (Some(file), None) => match file_contents {
            Some(c) => c,
            None => {
                if fail_if_missing {
                    return Err(MessageError::RequiredFileMissing);
                }
                let mut d = String::from_str("error reading file ");
                d.append(file.as_str());
                d
            },
        },
        (None, Some(text)) => text.clone(),
        (None, None) => {
            return Ok(None);
        },
    };
    if as_code {
        let mut f = String::from_str("```");
        f.append(text.as_str());
        f.append("```");
        Ok(Some(f))
    } else {
        Ok(Some(text))
    }
}

} // verus!
