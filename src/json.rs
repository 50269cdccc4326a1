//! The JSON layout of response texts: compact, or pretty with two-space
//! indentation, as serde_json lays them out.
use vstd::prelude::*;

verus! {

/// The JSON string literal that serde_json writes for a text, quotes and
/// escapes included.
pub uninterp spec fn json_string_literal(s: Seq<char>) -> Seq<char>;

/// Relies on `serde_json::to_string` on a `str`: the JSON string literal of
/// the text. For a `str` its only error would come from writing into its
/// `Vec<u8>` buffer, which does not fail, so the error arm is not taken.
#[verifier::external_body]
pub(crate) fn json_quote(s: &str) -> (r: String)
    ensures
        r@ == json_string_literal(s@),
{
    match serde_json::to_string(s) {
        Ok(t) => t,
        Err(e) => e.to_string(),
    }
}

/// A line break followed by `depth` levels of indentation; nothing when compact.
pub open spec fn newline_indent(pretty: bool, depth: nat) -> Seq<char>
    decreases depth,
{
    if !pretty {
        seq![]
    } else if depth == 0 {
        "\n"@
    } else {
        newline_indent(pretty, (depth - 1) as nat) + "  "@
    }
}

/// The separator between a member's key and its value.
pub open spec fn colon(pretty: bool) -> Seq<char> {
    if pretty {
        ": "@
    } else {
        ":"@
    }
}

/// The items of an array or object at nesting `depth`, comma separated, each
/// on a line of its own when pretty.
pub open spec fn list_body(items: Seq<Seq<char>>, pretty: bool, depth: nat) -> Seq<char>
    decreases items.len(),
{
    if items.len() == 0 {
        seq![]
    } else if items.len() == 1 {
        newline_indent(pretty, depth + 1) + items[0]
    } else {
        list_body(items.drop_last(), pretty, depth) + ","@ + newline_indent(pretty, depth + 1)
            + items.last()
    }
}

/// An array or object: its brackets around its items; an empty one is just
/// the two brackets.
pub open spec fn enclosed(
    open: Seq<char>,
    close: Seq<char>,
    items: Seq<Seq<char>>,
    pretty: bool,
    depth: nat,
) -> Seq<char> {
    if items.len() == 0 {
        open + close
    } else {
        open + list_body(items, pretty, depth) + newline_indent(pretty, depth) + close
    }
}

pub open spec fn views_of(items: Seq<String>) -> Seq<Seq<char>> {
    items.map_values(|s: String| s@)
}

/// Appends a line break and indentation for `depth` when pretty.
pub fn push_newline_indent(out: &mut String, pretty: bool, depth: usize)
    ensures
        final(out)@ == old(out)@ + newline_indent(pretty, depth as nat),
{
    if !pretty {
        assert(old(out)@ + newline_indent(pretty, depth as nat) =~= old(out)@);
        return;
    }
    out.append("\n");
    let mut i: usize = 0;
    while i < depth
        invariant
            pretty,
            i <= depth,
            out@ == old(out)@ + newline_indent(pretty, i as nat),
        decreases depth - i,
    {
        out.append("  ");
        i = i + 1;
        assert(out@ =~= old(out)@ + newline_indent(pretty, i as nat));
    }
}

/// Renders an array or object from its already rendered items.
pub fn render_enclosed(
    open: &str,
    close: &str,
    items: &Vec<String>,
    pretty: bool,
    depth: usize,
) -> (r: String)
    requires
        depth < usize::MAX,
    ensures
        r@ == enclosed(open@, close@, views_of(items@), pretty, depth as nat),
{
    let ghost all = views_of(items@);
    let mut out = String::from_str(open);
    let mut i: usize = 0;
    while i < items.len()
        invariant
            depth < usize::MAX,
            i <= items@.len(),
            all == views_of(items@),
            out@ == open@ + list_body(all.take(i as int), pretty, depth as nat),
        decreases items.len() - i,
    {
        let ghost before = out@;
        if i > 0 {
            out.append(",");
        }
        push_newline_indent(&mut out, pretty, depth + 1);
        out.append(items[i].as_str());
        proof {
            let t = all.take(i as int + 1);
            assert(t.drop_last() =~= all.take(i as int));
            assert(t.last() == items@[i as int]@);
            if i == 0 {
                assert(list_body(all.take(0), pretty, depth as nat) =~= seq![]);
            }
        }
        i = i + 1;
        assert(out@ =~= open@ + list_body(all.take(i as int), pretty, depth as nat));
    }
    assert(all.take(items@.len() as int) =~= all);
    if items.len() > 0 {
        push_newline_indent(&mut out, pretty, depth);
    }
    out.append(close);
    proof {
        if items@.len() == 0 {
            assert(list_body(all.take(0), pretty, depth as nat) =~= seq![]);
        }
    }
    assert(out@ =~= enclosed(open@, close@, all, pretty, depth as nat));
    out
}

} // verus!
