//! Rendering of a selected rating entry into an output document: an HTML
//! page carrying Open Graph metadata, or a Discord-compatible embed JSON
//! payload. Every renderer's result is pinned character for character by a
//! spec-level construction of the document.

use vstd::prelude::*;
use vstd::string::StrSliceExecFns;
use vstd::string::StringExecFns;
use crate::model::Rating;
use crate::numfmt::{dec_digit, dec_str, fmt_i64, fmt_tenths, fmt_u64, hex_digit, hex_digit_str, int_str, tenths_str};
use crate::rank::{get_rank_from_rating, rank_label};

verus! {

/// The color constant of the Discord embed.
pub const DISCORD_EMBED_COLOR: u32 = 9406699;

/// JSON escaping of a single character: quotes and backslashes get a
/// backslash, control characters a \u00XX escape, everything else stands
/// as itself.
pub open spec fn esc_char(c: char) -> Seq<char> {
    if c == '"' {
        "\\\""@
    } else if c == '\\' {
        "\\\\"@
    } else if (c as u32) < 32 {
        let d = (c as u32) as int;
        "\\u00"@ + seq![hex_digit(d / 16), hex_digit(d % 16)]
    } else {
        seq![c]
    }
}

/// JSON escaping of a text, character by character.
pub open spec fn json_escaped(s: Seq<char>) -> Seq<char>
    decreases s.len(),
{
    if s.len() == 0 {
        Seq::empty()
    } else {
        json_escaped(s.drop_last()) + esc_char(s.last())
    }
}

/// JSON string literal encoding of a text: quotes around the escaped body.
pub open spec fn json_string(s: Seq<char>) -> Seq<char> {
    "\""@ + json_escaped(s) + "\""@
}

/// Relies on String::push: it appends exactly the given character.
#[verifier::external_body]
fn push_char(s: &mut String, c: char)
    ensures
        final(s)@ == old(s)@.push(c),
{
    s.push(c);
}

/// Append the JSON escaping of one character.
fn append_escaped(out: &mut String, c: char)
    ensures
        final(out)@ == old(out)@ + esc_char(c),
{
    if c == '"' {
        out.append("\\\"");
    } else if c == '\\' {
        out.append("\\\\");
    } else if (c as u32) < 32 {
        let d: u32 = c as u32;
        out.append("\\u00");
        out.append(hex_digit_str(d / 16));
        out.append(hex_digit_str(d % 16));
        proof {
            assert(final(out)@ =~= old(out)@ + esc_char(c));
        }
    } else {
        push_char(out, c);
        proof {
            assert(final(out)@ =~= old(out)@ + esc_char(c));
        }
    }
}

/// JSON-escape a text.
pub fn json_escape(s: &str) -> (r: String)
    ensures
        r@ == json_escaped(s@),
{
    let n: usize = s.unicode_len();
    let mut r = String::new();
    let mut i: usize = 0;
    while i < n
        invariant
            n == s@.len(),
            0 <= i <= n,
            r@ == json_escaped(s@.subrange(0, i as int)),
        decreases n - i,
    {
        let c = s.get_char(i);
        append_escaped(&mut r, c);
        proof {
            assert(s@.subrange(0, i + 1).drop_last() =~= s@.subrange(0, i as int));
            assert(s@.subrange(0, i + 1).last() == s@[i as int]);
        }
        i += 1;
    }
    proof {
        assert(s@.subrange(0, n as int) =~= s@);
    }
    r
}

/// The displayed rating of the graded variant: values in the top tier carry
/// an additive encoding offset of 10,000,000 which is removed for display
/// and marked with the "DR" unit; every other value is shown raw as "RP".
pub open spec fn spec_rating_display(rating: int) -> Seq<char> {
    if rating >= 45000 {
        int_str(rating - 10000000) + " DR"@
    } else {
        int_str(rating) + " RP"@
    }
}

/// Render the unit-tagged rating of the graded variant.
pub fn format_rating_display(rating: i64) -> (s: String)
    ensures
        s@ == spec_rating_display(rating as int),
{
    if rating >= 45000 {
        let mut s = fmt_i64(rating - 10000000);
        s.append(" DR");
        s
    } else {
        let mut s = fmt_i64(rating);
        s.append(" RP");
        s
    }
}

/// Description line of the graded variant: rank label, unit-tagged rating
/// and game count.
pub open spec fn spec_desc_graded(rating: int, match_count: int) -> Seq<char> {
    rank_label(rating) + ", "@ + spec_rating_display(rating) + " | Games: "@ + dec_str(match_count)
}

/// Description line of the continuous variant: the rating (kept in tenths)
/// with one fractional digit, and the game count.
pub open spec fn spec_desc_plain(rating_tenths: int, match_count: int) -> Seq<char> {
    "Rating: "@ + tenths_str(rating_tenths) + " | Games: "@ + dec_str(match_count)
}

/// The complete HTML document with Open Graph metadata.
pub open spec fn spec_html_doc(
    name: Seq<char>,
    character: Seq<char>,
    desc: Seq<char>,
    player_id: int,
    char_short: Seq<char>,
) -> Seq<char> {
    "<!DOCTYPE html>\n    <html>\n    <head>\n        <meta property=\"og:title\" content=\""@
        + name + " - "@ + character
        + "\" />\n        <meta property=\"og:type\" content=\"website\" />\n        <meta property=\"og:description\" content=\""@
        + desc
        + "\" />\n        <meta property=\"og:site_name\" content=\"puddle.farm\" />\n        <meta property=\"og:url\" content=\"https://puddle.farm/player/"@
        + int_str(player_id) + "/"@ + char_short
        + "\" />\n        <meta property=\"og:image\" content=\"https://puddle.farm/api/avatar/"@
        + int_str(player_id)
        + "\" />\n    </head>\n    <body>\n        <p>Player stats for "@
        + name
        + "</p>\n    </body>\n    </html>"@
}

/// Render the HTML document around an already-formatted description line.
fn render_html_doc(
    name: &String,
    character: &String,
    desc: &String,
    player_id: i64,
    char_short: &String,
) -> (r: String)
    ensures
        r@ == spec_html_doc(name@, character@, desc@, player_id as int, char_short@),
{
    let mut s: String =
        "<!DOCTYPE html>\n    <html>\n    <head>\n        <meta property=\"og:title\" content=\"".to_owned();
    s.append(name.as_str());
    s.append(" - ");
    s.append(character.as_str());
    s.append("\" />\n        <meta property=\"og:type\" content=\"website\" />\n        <meta property=\"og:description\" content=\"");
    s.append(desc.as_str());
    s.append("\" />\n        <meta property=\"og:site_name\" content=\"puddle.farm\" />\n        <meta property=\"og:url\" content=\"https://puddle.farm/player/");
    let id_str = fmt_i64(player_id);
    s.append(id_str.as_str());
    s.append("/");
    s.append(char_short.as_str());
    s.append("\" />\n        <meta property=\"og:image\" content=\"https://puddle.farm/api/avatar/");
    s.append(id_str.as_str());
    s.append("\" />\n    </head>\n    <body>\n        <p>Player stats for ");
    s.append(name.as_str());
    s.append("</p>\n    </body>\n    </html>");
    s
}

/// The HTML document of the graded variant for a selected entry.
pub open spec fn spec_html_graded(player_id: int, name: Seq<char>, entry: Rating) -> Seq<char> {
    spec_html_doc(
        name,
        entry.character@,
        spec_desc_graded(entry.rating as int, entry.match_count as int),
        player_id,
        entry.char_short@,
    )
}

/// Render the graded-variant HTML document: the entry's rating is
/// classified into a rank tier and shown with its unit.
pub fn render_html_graded(player_id: i64, name: &String, entry: &Rating) -> (r: String)
    ensures
        r@ == spec_html_graded(player_id as int, name@, *entry),
{
    let rank = get_rank_from_rating(entry.rating);
    let mut desc = rank.name;
    desc.append(", ");
    let shown = format_rating_display(entry.rating);
    desc.append(shown.as_str());
    desc.append(" | Games: ");
    let games = fmt_u64(entry.match_count as u64);
    desc.append(games.as_str());
    render_html_doc(name, &entry.character, &desc, player_id, &entry.char_short)
}

/// The HTML document of the continuous variant for a selected entry.
pub open spec fn spec_html_plain(player_id: int, name: Seq<char>, entry: Rating) -> Seq<char> {
    spec_html_doc(
        name,
        entry.character@,
        spec_desc_plain(entry.rating as int, entry.match_count as int),
        player_id,
        entry.char_short@,
    )
}

/// Render the continuous-variant HTML document: the rating is shown with
/// one fractional digit and no tier label.
pub fn render_html_plain(player_id: i64, name: &String, entry: &Rating) -> (r: String)
    ensures
        r@ == spec_html_plain(player_id as int, name@, *entry),
{
    let mut desc: String = "Rating: ".to_owned();
    let shown = fmt_tenths(entry.rating);
    desc.append(shown.as_str());
    desc.append(" | Games: ");
    let games = fmt_u64(entry.match_count as u64);
    desc.append(games.as_str());
    render_html_doc(name, &entry.character, &desc, player_id, &entry.char_short)
}

/// The Discord embed document: one embed titled with the player's name,
/// two inline fields (the character's rating with its deviation, then the
/// game count), a fixed description and footer, and the color constant.
pub open spec fn spec_discord_embed(name: Seq<char>, entry: Rating) -> Seq<char> {
    "{\"embeds\":[{\"title\":\""@
        + json_escaped(name)
        + "\",\"description\":\"Guilty Gear -Strive-\",\"color\":"@
        + dec_str(DISCORD_EMBED_COLOR as int)
        + ",\"fields\":[{\"name\":\""@
        + json_escaped(entry.character@)
        + "\",\"value\":\""@
        + tenths_str(entry.rating as int)
        + " \u{b1}"@
        + tenths_str(entry.deviation as int)
        + "\",\"inline\":true},{\"name\":\"Games\",\"value\":\""@
        + dec_str(entry.match_count as int)
        + "\",\"inline\":true}],\"footer\":{\"text\":\"puddle.farm\"}}]}"@
}

/// Render the Discord embed document.
pub fn render_discord_embed(name: &String, entry: &Rating) -> (r: String)
    ensures
        r@ == spec_discord_embed(name@, *entry),
{
    let mut s: String = "{\"embeds\":[{\"title\":\"".to_owned();
    let escaped_name = json_escape(name.as_str());
    s.append(escaped_name.as_str());
    s.append("\",\"description\":\"Guilty Gear -Strive-\",\"color\":");
    let color = fmt_u64(DISCORD_EMBED_COLOR as u64);
    s.append(color.as_str());
    s.append(",\"fields\":[{\"name\":\"");
    let escaped_char = json_escape(entry.character.as_str());
    s.append(escaped_char.as_str());
    s.append("\",\"value\":\"");
    let shown = fmt_tenths(entry.rating);
    s.append(shown.as_str());
    s.append(" \u{b1}");
    let dev = fmt_tenths(entry.deviation);
    s.append(dev.as_str());
    s.append("\",\"inline\":true},{\"name\":\"Games\",\"value\":\"");
    let games = fmt_u64(entry.match_count as u64);
    s.append(games.as_str());
    s.append("\",\"inline\":true}],\"footer\":{\"text\":\"puddle.farm\"}}]}");
    s
}

/// The Discord response body: the embed document serialized once more as a
/// JSON string (the double encoding the downstream consumer expects).
pub open spec fn spec_discord_body(name: Seq<char>, entry: Rating) -> Seq<char> {
    json_string(spec_discord_embed(name, entry))
}

/// Render the Discord response body: the embed document wrapped as a JSON
/// string.
pub fn render_discord_body(name: &String, entry: &Rating) -> (r: String)
    ensures
        r@ == spec_discord_body(name@, *entry),
{
    let embed = render_discord_embed(name, entry);
    let mut s: String = "\"".to_owned();
    let escaped = json_escape(embed.as_str());
    s.append(escaped.as_str());
    s.append("\"");
    s
}

} // verus!
