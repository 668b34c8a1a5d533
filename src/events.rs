use vstd::prelude::*;
use vstd::string::*;
use vstd::utf8::*;

verus! {

/// A progress event of the launch procedure.
pub enum ProgressUpdate {
    /// The number of steps of the current phase.
    SetMax(u64),
    /// The number of steps done so far.
    SetProgress(u64),
    /// A text describing the current step.
    SetLabel(String),
}

/// The payload handed to the progress callback.
pub enum ProgressValue {
    Count(i32),
    Text(String),
}

/// The arguments of one progress callback invocation: a kind tag (`max`,
/// `progress` or `label`) and its payload.
pub struct ProgressEvent {
    pub kind: String,
    pub value: ProgressValue,
}

/// The output stream a line of process output came from.
#[derive(PartialEq, Eq, Structural, Clone, Copy, Debug)]
pub enum OutputStream {
    Stdout,
    Stderr,
}

/// The arguments of one output callback invocation: the stream tag
/// (`stdout` or `stderr`) and the decoded text.
pub struct OutputEvent {
    pub stream: String,
    pub text: String,
}

/// Failure to hand an event to the presentation layer. It is reported and
/// never ends the session.
pub enum CallbackError {
    /// The process output was not valid UTF-8.
    InvalidUtf8,
    /// The receiving side rejected the call or is gone.
    Delivery(String),
}

/// A count as the presentation layer's 32-bit integer, saturating at its
/// largest value.
pub open spec fn count_value(n: u64) -> i32 {
    if n <= i32::MAX as u64 {
        n as i32
    } else {
        i32::MAX
    }
}

/// Tag and payload of the progress callback for an update.
pub open spec fn progress_matches(update: ProgressUpdate, event: ProgressEvent) -> bool {
    match update {
        ProgressUpdate::SetMax(n) => event.kind@ == "max"@ && event.value == ProgressValue::Count(
            count_value(n),
        ),
        ProgressUpdate::SetProgress(n) => event.kind@ == "progress"@ && event.value
            == ProgressValue::Count(count_value(n)),
        ProgressUpdate::SetLabel(l) => {
            &&& event.kind@ == "label"@
            &&& event.value matches ProgressValue::Text(t) && t@ == l@
        },
    }
}

pub open spec fn stream_tag(stream: OutputStream) -> Seq<char> {
    match stream {
        OutputStream::Stdout => "stdout"@,
        OutputStream::Stderr => "stderr"@,
    }
}

fn to_count(n: u64) -> (r: i32)
    ensures
        r == count_value(n),
{
    if n <= i32::MAX as u64 {
        n as i32
    } else {
        i32::MAX
    }
}

/// The progress callback's arguments for an update.
pub fn progress_event(update: ProgressUpdate) -> (r: ProgressEvent)
    ensures
        progress_matches(update, r),
{
    match update {
        ProgressUpdate::SetMax(n) => ProgressEvent {
            kind: String::from_str("max"),
            value: ProgressValue::Count(to_count(n)),
        },
        ProgressUpdate::SetProgress(n) => ProgressEvent {
            kind: String::from_str("progress"),
            value: ProgressValue::Count(to_count(n)),
        },
        ProgressUpdate::SetLabel(l) => ProgressEvent {
            kind: String::from_str("label"),
            value: ProgressValue::Text(l),
        },
    }
}

/// Relies on `String::from_utf8`: it succeeds exactly on valid UTF-8 and
/// then yields the text the bytes encode.
#[verifier::external_body]
fn utf8_text(data: &[u8]) -> (r: Option<String>)
    ensures
        r is Some <==> valid_utf8(data@),
        r matches Some(s) ==> s@ == decode_utf8(data@),
{
    String::from_utf8(data.to_vec()).ok()
}

/// The output callback's arguments for a chunk of process output; output
/// that is not UTF-8 is reported as an error instead.
pub fn output_event(stream: OutputStream, data: &[u8]) -> (r: Result<OutputEvent, CallbackError>)
    ensures
        match r {
            Ok(e) => valid_utf8(data@) && e.stream@ == stream_tag(stream) && e.text@ == decode_utf8(
                data@,
            ),
            Err(e) => !valid_utf8(data@) && e is InvalidUtf8,
        },
{
    match utf8_text(data) {
        None => Err(CallbackError::InvalidUtf8),
        Some(text) => {
            let tag = match stream {
                OutputStream::Stdout => String::from_str("stdout"),
                OutputStream::Stderr => String::from_str("stderr"),
            };
            Ok(OutputEvent { stream: tag, text })
        },
    }
}

} // verus!
