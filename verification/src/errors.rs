//! The domain error: which target a notification failed for, and with what
//! status, carried as plain values so the message can be stated exactly.

use vstd::prelude::*;
use crate::text::{dec_str, push_dec, reason_label, reason_phrase};

verus! {

/// A failed delivery. `HueLight`, `SlackSend` and `MattermostSend` carry the
/// non-success HTTP status the provider answered; `Unreachable` names the
/// endpoint that gave no answer at all.
#[derive(Debug, PartialEq, Eq)]
pub enum DuckError {
    HueLight { light: String, code: u16 },
    SlackSend { code: u16 },
    MattermostSend { code: u16 },
    Unreachable { target: String },
}

pub type DuckResult<T> = Result<T, DuckError>;

/// The status code and reason as they appear in a message: `502 Bad Gateway`.
pub open spec fn status_text(code: u16) -> Seq<char> {
    dec_str(code as int) + " "@ + reason_label(code as int)
}

/// The operator-facing description of an error.
pub open spec fn error_message(e: &DuckError) -> Seq<char> {
    match e {
        DuckError::HueLight { light, code } => "Could not update state for light '"@ + light@
            + "' ("@ + status_text(*code) + ")"@,
        DuckError::SlackSend { code } => "Could not send Slack message ("@ + status_text(*code)
            + ")"@,
        DuckError::MattermostSend { code } => "Could not send Mattermost message ("@ + status_text(
            *code,
        ) + ")"@,
        DuckError::Unreachable { target } => "Could not reach '"@ + target@ + "'"@,
    }
}

fn push_status_text(code: u16, out: &mut String)
    ensures
        final(out)@ == old(out)@ + status_text(code),
{
    push_dec(code, out);
    out.append(" ");
    out.append(reason_phrase(code));
    proof {
        assert(out@ =~= old(out)@ + status_text(code));
    }
}

impl DuckError {
    /// The message for this error, exactly `error_message`.
    pub fn message(&self) -> (r: String)
        ensures
            r@ == error_message(self),
    {
        let mut out = String::new();
        match self {
            DuckError::HueLight { light, code } => {
                out.append("Could not update state for light '");
                out.append(light.as_str());
                out.append("' (");
                push_status_text(*code, &mut out);
                out.append(")");
            },
            DuckError::SlackSend { code } => {
                out.append("Could not send Slack message (");
                push_status_text(*code, &mut out);
                out.append(")");
            },
            DuckError::MattermostSend { code } => {
                out.append("Could not send Mattermost message (");
                push_status_text(*code, &mut out);
                out.append(")");
            },
            DuckError::Unreachable { target } => {
                out.append("Could not reach '");
                out.append(target.as_str());
                out.append("'");
            },
        }
        proof {
            assert(out@ =~= error_message(self));
        }
        out
    }
}

} // verus!
