//! Mapping of a lookup's outcome to an HTTP reply.
//!
//! The network work itself — the outbound fetch, the body read, the wire
//! decode — happens outside the library; its outcome arrives here as a
//! plain value, and every outcome is mapped to exactly one reply: a
//! stage-tagged diagnostic for upstream failures, a fixed not-found
//! message when the requested character has no rating entry, and the
//! rendered document otherwise.

use vstd::prelude::*;
use vstd::string::StringExecFns;
use crate::model::Player;
use crate::model::Rating;
use crate::render::{
    render_discord_body, render_html_graded, render_html_plain, spec_discord_body,
    spec_html_graded, spec_html_plain,
};
use crate::select::{first_match, select};

verus! {

/// The deployment-selected output format.
#[derive(Clone, Copy)]
pub enum OutputMode {
    /// HTML with the rating shown with one fractional digit and no tier.
    HtmlPlain,
    /// HTML with the rating classified into a rank tier.
    HtmlGraded,
    /// Discord embed JSON payload.
    DiscordEmbed,
}

/// What came of the upstream lookup, as handed in from the transport
/// layer: one of the three failure stages with its diagnostic text, or the
/// decoded player record.
pub enum UpstreamOutcome {
    /// The outbound call itself failed.
    TransportError(String),
    /// The response body could not be read.
    BodyReadError(String),
    /// The body was not a valid player record; carries the decoder's
    /// message and the raw body.
    DecodeError(String, String),
    /// The decoded player record.
    Decoded(Player),
}

/// An HTTP reply: status code, content type and body.
pub struct HttpReply {
    pub status: u16,
    pub content_type: String,
    pub body: String,
}

/// The content type of a successful reply in the given mode.
pub open spec fn spec_content_type(mode: OutputMode) -> Seq<char> {
    match mode {
        OutputMode::HtmlPlain => "text/html; charset=utf-8"@,
        OutputMode::HtmlGraded => "text/html; charset=utf-8"@,
        OutputMode::DiscordEmbed => "application/json"@,
    }
}

/// The successful document for a selected entry in the given mode.
pub open spec fn spec_render(mode: OutputMode, player_id: int, player: Player, entry: Rating) -> Seq<char> {
    match mode {
        OutputMode::HtmlPlain => spec_html_plain(player_id, player.name@, entry),
        OutputMode::HtmlGraded => spec_html_graded(player_id, player.name@, entry),
        OutputMode::DiscordEmbed => spec_discord_body(player.name@, entry),
    }
}

/// Build the plain-text reply of a failure.
fn error_reply(status: u16, prefix: &str, msg: &String) -> (r: HttpReply)
    ensures
        r.status == status,
        r.content_type@ == "text/plain; charset=utf-8"@,
        r.body@ == prefix@ + msg@,
{
    let mut body: String = prefix.to_owned();
    body.append(msg.as_str());
    HttpReply { status, content_type: "text/plain; charset=utf-8".to_owned(), body }
}

/// Map a lookup outcome to the one reply it owes: transport, body-read and
/// decode failures become stage-tagged internal-server errors (the decode
/// diagnostic echoes the raw body); a decoded record whose rating list has
/// no entry for `char_id` becomes a plain not-found reply; and a matching
/// entry — always the first match — becomes the rendered document of the
/// selected output mode with status 200.
pub fn respond(player_id: i64, char_id: &String, outcome: UpstreamOutcome, mode: OutputMode) -> (r: HttpReply)
    ensures
        match outcome {
            UpstreamOutcome::TransportError(e) => {
                &&& r.status == 500
                &&& r.content_type@ == "text/plain; charset=utf-8"@
                &&& r.body@ == "E1 "@ + e@
            },
            UpstreamOutcome::BodyReadError(e) => {
                &&& r.status == 500
                &&& r.content_type@ == "text/plain; charset=utf-8"@
                &&& r.body@ == "E2 "@ + e@
            },
            UpstreamOutcome::DecodeError(e, raw) => {
                &&& r.status == 500
                &&& r.content_type@ == "text/plain; charset=utf-8"@
                &&& r.body@ == "E3 "@ + e@ + " : "@ + raw@
            },
            UpstreamOutcome::Decoded(player) => {
                let k = first_match(player.ratings@, char_id@);
                if k == -1 {
                    &&& r.status == 404
                    &&& r.content_type@ == "text/plain; charset=utf-8"@
                    &&& r.body@ == "Character not found"@
                } else {
                    &&& r.status == 200
                    &&& r.content_type@ == spec_content_type(mode)
                    &&& r.body@ == spec_render(mode, player_id as int, player, player.ratings@[k])
                }
            },
        },
{
    match outcome {
        UpstreamOutcome::TransportError(e) => error_reply(500, "E1 ", &e),
        UpstreamOutcome::BodyReadError(e) => error_reply(500, "E2 ", &e),
        UpstreamOutcome::DecodeError(e, raw) => {
            let mut msg = e;
            msg.append(" : ");
            msg.append(raw.as_str());
            error_reply(500, "E3 ", &msg)
        },
        UpstreamOutcome::Decoded(player) => {
            match select(&player, char_id) {
                None => HttpReply {
                    status: 404,
                    content_type: "text/plain; charset=utf-8".to_owned(),
                    body: "Character not found".to_owned(),
                },
                Some(entry) => {
                    let body: String = match mode {
                        OutputMode::HtmlPlain => render_html_plain(player_id, &player.name, entry),
                        OutputMode::HtmlGraded => render_html_graded(player_id, &player.name, entry),
                        OutputMode::DiscordEmbed => render_discord_body(&player.name, entry),
                    };
                    let content_type: String = match mode {
                        OutputMode::HtmlPlain => "text/html; charset=utf-8".to_owned(),
                        OutputMode::HtmlGraded => "text/html; charset=utf-8".to_owned(),
                        OutputMode::DiscordEmbed => "application/json".to_owned(),
                    };
                    HttpReply { status: 200, content_type, body }
                },
            }
        },
    }
}

} // verus!
