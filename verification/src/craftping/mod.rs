//! The status of a game server: how it is asked for, and what is shown of
//! it.

pub mod error;

use crate::craftping::error::{CraftPingError, CraftPingErrorKind, PingFailure, ResolveFailure};
use crate::text::{join, joined, texts};
use vstd::prelude::*;
use vstd::std_specs::convert::FromSpec;
use vstd::string::StringExecFns;

verus! {

/// The protocol number taken for a server that names none.
pub const DEFAULT_PROTOCOL: u32 = 47;

/// What is shown of a server that answered.
#[derive(Debug)]
pub struct Response {
    pub motd: String,
    pub favicon: Option<String>,
    pub players_max: u32,
    pub players_online: u32,
    pub version: u32,
    pub version_name: String,
}

/// A piece of styled text, with the pieces that follow inside it.
#[derive(Debug)]
pub struct FancyText {
    pub text: Option<String>,
    pub color: Option<String>,
    pub bold: Option<bool>,
    pub italic: Option<bool>,
    pub underlined: Option<bool>,
    pub strikethrough: Option<bool>,
    pub extra: Option<Vec<FancyText>>,
}

/// The version that a server reports.
#[derive(Debug)]
pub struct ServerVersion {
    pub name: String,
    pub protocol: u32,
}

/// The player counts that a server reports.
#[derive(Debug)]
pub struct ServerPlayers {
    pub max: u32,
    pub online: u32,
}

/// The status that a server reports.
#[derive(Debug)]
pub struct ServerInfo {
    pub version: Option<ServerVersion>,
    pub players: Option<ServerPlayers>,
    pub description: FancyText,
    pub favicon: Option<String>,
}

/// `on` if the switch is set, else nothing.
pub open spec fn when_set(switch: Option<bool>, on: Seq<char>) -> Seq<char> {
    if switch == Some(true) {
        on
    } else {
        Seq::empty()
    }
}

/// What the option holds, or nothing.
pub open spec fn text_or_empty(text: Option<String>) -> Seq<char> {
    match text {
        Some(text) => text@,
        None => Seq::empty(),
    }
}

/// The piece alone as a `span` element with its style, without the pieces
/// inside it.
pub open spec fn span(fncy: FancyText) -> Seq<char> {
    "<span style=\""@ + (match fncy.color {
        Some(color) => "color: "@ + color@ + ";"@,
        None => Seq::empty(),
    }) + when_set(fncy.bold, "font-weight: bold;"@) + when_set(fncy.italic, "font-style: italic;"@)
        + when_set(fncy.underlined, "text-decoration: underline"@) + when_set(
        fncy.strikethrough,
        "text-decoration: line-through;"@,
    ) + "\">"@ + text_or_empty(fncy.text) + "</span>"@
}

/// The piece as a `span` element, followed by the pieces inside it.
pub open spec fn rendered(fncy: FancyText) -> Seq<char>
    decreases fncy, 0nat,
{
    span(fncy) + match fncy.extra {
        Some(extra) => joined(rendered_first(extra@, extra@.len()), Seq::empty()),
        None => Seq::empty(),
    }
}

/// Each of the first `n` pieces, rendered.
pub open spec fn rendered_first(parts: Seq<FancyText>, n: nat) -> Seq<Seq<char>>
    decreases parts, n,
{
    if n == 0 || n > parts.len() {
        Seq::empty()
    } else {
        rendered_first(parts, (n - 1) as nat).push(rendered(parts[n - 1]))
    }
}

/// The message of the day: the rendered pieces inside the text, or, where
/// it has none inside, its own text as it is.
pub open spec fn documentation(fncy: FancyText) -> Seq<char> {
    match fncy.extra {
        Some(extra) => joined(rendered_first(extra@, extra@.len()), Seq::empty()),
        None => text_or_empty(fncy.text),
    }
}

/// Renders one piece as a `span` element with its style.
pub fn format(fncy: &FancyText) -> (html: String)
    ensures
        html@ == span(*fncy),
{
    let mut html = String::from_str("<span style=\"");
    if let Some(color) = &fncy.color {
        html.append("color: ");
        html.append(color.as_str());
        html.append(";");
    }
    if let Some(true) = fncy.bold {
        html.append("font-weight: bold;");
    }
    if let Some(true) = fncy.italic {
        html.append("font-style: italic;");
    }
    if let Some(true) = fncy.underlined {
        html.append("text-decoration: underline");
    }
    if let Some(true) = fncy.strikethrough {
        html.append("text-decoration: line-through;");
    }
    html.append("\">");
    if let Some(text) = &fncy.text {
        html.append(text.as_str());
    }
    html.append("</span>");
    html
}

/// Joins the pieces without anything between them.
fn concat(pieces: &Vec<String>) -> (text: String)
    ensures
        text@ == joined(texts(pieces@), Seq::empty()),
{
    proof {
        reveal_strlit("");
        assert(""@ == Seq::<char>::empty());
    }
    join(pieces.as_slice(), "")
}

/// Renders each piece inside `text`, with the pieces inside it.
pub fn iterate(text: &FancyText) -> (pieces: Vec<String>)
    ensures
        texts(pieces@) == match text.extra {
            Some(extra) => rendered_first(extra@, extra@.len()),
            None => Seq::empty(),
        },
    decreases text,
{
    let mut pieces: Vec<String> = Vec::new();
    let extra = match &text.extra {
        Some(extra) => extra,
        None => {
            return pieces;
        },
    };
    let mut i: usize = 0;
    while i < extra.len()
        invariant
            i <= extra.len(),
            text.extra == Some(*extra),
            texts(pieces@) == rendered_first(extra@, i as nat),
        decreases extra.len() - i,
    {
        let fncy = &extra[i];
        let mut final_str = format(fncy);
        if fncy.extra.is_some() {
            proof {
                assert(decreases_to!(text.extra => text.extra->Some_0));
            }
            let inner = iterate(fncy);
            let nested = concat(&inner);
            final_str.append(nested.as_str());
        }
        let ghost before = pieces@;
        pieces.push(final_str);
        assert(texts(pieces@) == texts(before).push(rendered(*fncy)));
        i += 1;
    }
    pieces
}

/// The message of the day that a description stands for.
pub fn extract_documentation(fncy: &FancyText) -> (motd: String)
    ensures
        motd@ == documentation(*fncy),
{
    if fncy.extra.is_some() {
        let pieces = iterate(fncy);
        concat(&pieces)
    } else {
        match &fncy.text {
            Some(text) => text.clone(),
            None => String::new(),
        }
    }
}

/// `shown` is what is shown of a server with the status `info`: the message
/// of the day from its description, its icon, and its version and player
/// counts, or, where it reports none, the default protocol without a name
/// and no players.
pub open spec fn shows(shown: Response, info: ServerInfo) -> bool {
    &&& shown.motd@ == documentation(info.description)
    &&& shown.favicon == info.favicon
    &&& shown.version == match info.version {
        Some(version) => version.protocol,
        None => DEFAULT_PROTOCOL,
    }
    &&& shown.version_name@ == match info.version {
        Some(version) => version.name@,
        None => Seq::empty(),
    }
    &&& shown.players_max == match info.players {
        Some(players) => players.max,
        None => 0,
    }
    &&& shown.players_online == match info.players {
        Some(players) => players.online,
        None => 0,
    }
}

/// What is shown of a server with this status.
pub fn response(info: ServerInfo) -> (shown: Response)
    ensures
        shows(shown, info),
{
    let ServerInfo { version, players, description, favicon } = info;
    let motd = extract_documentation(&description);
    let (players_max, players_online) = match players {
        Some(players) => (players.max, players.online),
        None => (0, 0),
    };
    let (protocol, version_name) = match version {
        Some(version) => (version.protocol, version.name),
        None => (DEFAULT_PROTOCOL, String::new()),
    };
    Response { motd, favicon, players_max, players_online, version: protocol, version_name }
}

/// The name under which the service records of the host `addr` are found.
pub open spec fn service_of(addr: Seq<char>) -> Seq<char> {
    "_minecraft._tcp."@ + addr
}

/// The name under which the service records of the host `addr` are found.
pub fn srv_service(addr: &str) -> (service: String)
    ensures
        service@ == service_of(addr@),
{
    String::from_str("_minecraft._tcp.").concat(addr)
}

/// What happened since the last step of a ping.
#[derive(Debug)]
pub enum PingEvent {
    /// The request to the address as it was given has ended.
    Direct(Result<ServerInfo, PingFailure>),
    /// The lookup of the service records has ended; the records are the
    /// hosts and ports in the order of the answer.
    Resolved(Result<Vec<(String, u16)>, ResolveFailure>),
    /// The request to the host of the first service record has ended.
    Retried(Result<ServerInfo, PingFailure>),
}

/// What a ping does next.
#[derive(Debug)]
pub enum PingStep {
    /// The server answered: this is shown of it.
    Done(Response),
    /// Look up the service records of this name.
    Resolve(String),
    /// Ask the server at this host and port.
    Retry(String, u16),
    /// The ping has failed.
    Failed(CraftPingError),
}

/// One step of a ping of the server at `addr`.
///
/// A server that answers the first request is shown. If it does not, the
/// service records of the host are looked up and the host of the first
/// record is asked once. A failed lookup, an answer without records and a
/// second failed request end the ping.
pub fn ping(addr: &str, event: PingEvent) -> (step: PingStep)
    ensures
        match event {
            PingEvent::Direct(Ok(info)) => step matches PingStep::Done(shown) && shows(shown, info),
            PingEvent::Direct(Err(_)) => step matches PingStep::Resolve(service) && service@
                == service_of(addr@),
            PingEvent::Resolved(Ok(records)) => if records.len() == 0 {
                step == PingStep::Failed(CraftPingError { kind: CraftPingErrorKind::Failed })
            } else {
                &&& step matches PingStep::Retry(host, port)
                &&& host@ == records[0].0@
                &&& port == records[0].1
            },
            PingEvent::Resolved(Err(e)) => step == PingStep::Failed(
                CraftPingError::from_spec(e),
            ),
            PingEvent::Retried(Ok(info)) => step matches PingStep::Done(shown) && shows(
                shown,
                info,
            ),
            PingEvent::Retried(Err(e)) => step == PingStep::Failed(CraftPingError::from_spec(e)),
        },
{
    match event {
        PingEvent::Direct(Ok(info)) => PingStep::Done(response(info)),
        PingEvent::Direct(Err(_)) => PingStep::Resolve(srv_service(addr)),
        PingEvent::Resolved(Ok(records)) => {
            let mut records = records;
            if records.len() == 0 {
                PingStep::Failed(CraftPingError::from(CraftPingErrorKind::Failed))
            } else {
                let (host, port) = records.remove(0);
                PingStep::Retry(host, port)
            }
        },
        PingEvent::Resolved(Err(e)) => PingStep::Failed(CraftPingError::from(e)),
        PingEvent::Retried(Ok(info)) => PingStep::Done(response(info)),
        PingEvent::Retried(Err(e)) => PingStep::Failed(CraftPingError::from(e)),
    }
}

} // verus!
