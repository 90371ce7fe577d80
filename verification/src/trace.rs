//! The tracing model: the request lifecycle events the middleware
//! observes, and the exact text of the debug line each one produces.
//! Tracing is observational only; nothing here touches a response.
//! Durations are carried as elapsed milliseconds, chunk sizes as byte
//! counts, both plain integers rendered in decimal.

use vstd::prelude::*;
use vstd::string::StringExecFns;

use crate::http::Method;

verus! {

/// The decimal digit for a value below ten.
pub open spec fn digit_char(d: nat) -> char {
    if d == 0 {
        '0'
    } else if d == 1 {
        '1'
    } else if d == 2 {
        '2'
    } else if d == 3 {
        '3'
    } else if d == 4 {
        '4'
    } else if d == 5 {
        '5'
    } else if d == 6 {
        '6'
    } else if d == 7 {
        '7'
    } else if d == 8 {
        '8'
    } else {
        '9'
    }
}

/// The usual decimal rendering of a number: no sign, no leading zero
/// except for the number zero itself.
pub open spec fn decimal_model(n: nat) -> Seq<char>
    decreases n,
{
    if n < 10 {
        seq![digit_char(n)]
    } else {
        decimal_model(n / 10).push(digit_char(n % 10))
    }
}

/// The one-character string for a value below ten.
fn digit_str(d: u64) -> (r: &'static str)
    requires
        d < 10,
    ensures
        r@ == seq![digit_char(d as nat)],
{
    let r: &'static str = match d {
        0 => "0",
        1 => "1",
        2 => "2",
        3 => "3",
        4 => "4",
        5 => "5",
        6 => "6",
        7 => "7",
        8 => "8",
        _ => "9",
    };
    proof {
        reveal_strlit("0");
        reveal_strlit("1");
        reveal_strlit("2");
        reveal_strlit("3");
        reveal_strlit("4");
        reveal_strlit("5");
        reveal_strlit("6");
        reveal_strlit("7");
        reveal_strlit("8");
        reveal_strlit("9");
        assert(r@ =~= seq![digit_char(d as nat)]);
    }
    r
}

/// Renders a number in decimal.
pub fn decimal_string(n: u64) -> (r: String)
    ensures
        r@ == decimal_model(n as nat),
    decreases n,
{
    if n < 10 {
        digit_str(n).to_owned()
    } else {
        let prefix = decimal_string(n / 10);
        let r = prefix.concat(digit_str(n % 10));
        proof {
            assert(decimal_model((n / 10) as nat) + seq![digit_char((n % 10) as nat)]
                =~= decimal_model((n / 10) as nat).push(digit_char((n % 10) as nat)));
        }
        r
    }
}

/// Model of each method's name as it appears in a request log line.
pub open spec fn method_name_model(m: Method) -> Seq<char> {
    match m {
        Method::Get => "GET"@,
        Method::Post => "POST"@,
        Method::Options => "OPTIONS"@,
        Method::Delete => "DELETE"@,
        Method::Put => "PUT"@,
        Method::Patch => "PATCH"@,
        Method::Head => "HEAD"@,
        Method::Other => "OTHER"@,
    }
}

/// The name of a method.
pub fn method_name(m: Method) -> (r: &'static str)
    ensures
        r@ == method_name_model(m),
{
    match m {
        Method::Get => "GET",
        Method::Post => "POST",
        Method::Options => "OPTIONS",
        Method::Delete => "DELETE",
        Method::Put => "PUT",
        Method::Patch => "PATCH",
        Method::Head => "HEAD",
        Method::Other => "OTHER",
    }
}

/// One observed event in a request's lifetime: the request arriving,
/// the response being produced after some elapsed time, a body chunk
/// going out, the stream closing, or an abnormal completion.
#[derive(Debug)]
pub enum TraceEvent {
    RequestStarted { method: Method, path: String },
    ResponseGenerated { elapsed_ms: u64 },
    BodyChunk { bytes: u64 },
    StreamClosed { elapsed_ms: u64 },
    Failed,
}

/// Mathematical model of `TraceEvent`.
pub enum TraceEventModel {
    RequestStarted { method: Method, path: Seq<char> },
    ResponseGenerated { elapsed_ms: u64 },
    BodyChunk { bytes: u64 },
    StreamClosed { elapsed_ms: u64 },
    Failed,
}

impl View for TraceEvent {
    type V = TraceEventModel;

    open spec fn view(&self) -> TraceEventModel {
        match self {
            TraceEvent::RequestStarted { method, path } => TraceEventModel::RequestStarted {
                method: *method,
                path: path@,
            },
            TraceEvent::ResponseGenerated { elapsed_ms } => TraceEventModel::ResponseGenerated {
                elapsed_ms: *elapsed_ms,
            },
            TraceEvent::BodyChunk { bytes } => TraceEventModel::BodyChunk { bytes: *bytes },
            TraceEvent::StreamClosed { elapsed_ms } => TraceEventModel::StreamClosed {
                elapsed_ms: *elapsed_ms,
            },
            TraceEvent::Failed => TraceEventModel::Failed,
        }
    }
}

/// Model of the debug line each event produces.
pub open spec fn trace_message_model(e: TraceEventModel) -> Seq<char> {
    match e {
        TraceEventModel::RequestStarted { method, path } => "started "@ + method_name_model(method)
            + " "@ + path,
        TraceEventModel::ResponseGenerated { elapsed_ms } => "response generated in "@
            + decimal_model(elapsed_ms as nat) + " ms"@,
        TraceEventModel::BodyChunk { bytes } => "sending "@ + decimal_model(bytes as nat)
            + " bytes"@,
        TraceEventModel::StreamClosed { elapsed_ms } => "stream closed after "@ + decimal_model(
            elapsed_ms as nat,
        ) + " ms"@,
        TraceEventModel::Failed => "something went wrong"@,
    }
}

/// The debug line for one event. Producing it never touches the
/// response; the middleware model takes no trace input at all.
pub fn trace_message(e: &TraceEvent) -> (m: String)
    ensures
        m@ == trace_message_model(e@),
{
    match e {
        TraceEvent::RequestStarted { method, path } => {
            let mut m = "started ".to_owned();
            m.append(method_name(*method));
            m.append(" ");
            m.append(path.as_str());
            m
        },
        TraceEvent::ResponseGenerated { elapsed_ms } => {
            let mut m = "response generated in ".to_owned();
            m.append(decimal_string(*elapsed_ms).as_str());
            m.append(" ms");
            m
        },
        TraceEvent::BodyChunk { bytes } => {
            let mut m = "sending ".to_owned();
            m.append(decimal_string(*bytes).as_str());
            m.append(" bytes");
            m
        },
        TraceEvent::StreamClosed { elapsed_ms } => {
            let mut m = "stream closed after ".to_owned();
            m.append(decimal_string(*elapsed_ms).as_str());
            m.append(" ms");
            m
        },
        TraceEvent::Failed => "something went wrong".to_owned(),
    }
}

} // verus!
