//! Rendering of one-shot flash messages above a form.

use vstd::prelude::*;

verus! {

/// The HTML for the messages: one `<p><i>…</i></p>` line each, in order.
pub open spec fn flash_html(msgs: Seq<Seq<char>>) -> Seq<char>
    decreases msgs.len(),
{
    if msgs.len() == 0 {
        Seq::empty()
    } else {
        flash_html(msgs.drop_last()) + "<p><i>"@ + msgs.last() + "</i></p>\n"@
    }
}

pub open spec fn texts(v: Seq<String>) -> Seq<Seq<char>> {
    v.map_values(|s: String| s@)
}

/// Renders the messages as HTML, one paragraph line per message, in order.
pub fn render_flash_messages(messages: &Vec<String>) -> (r: String)
    ensures
        r@ == flash_html(texts(messages@)),
{
    let mut html = String::new();
    let mut i: usize = 0;
    while i < messages.len()
        invariant
            i <= messages@.len(),
            html@ == flash_html(texts(messages@.subrange(0, i as int))),
        decreases messages@.len() - i,
    {
        html.append("<p><i>");
        html.append(messages[i].as_str());
        html.append("</i></p>\n");
        proof {
            let done = texts(messages@.subrange(0, i + 1));
            assert(done.drop_last() =~= texts(messages@.subrange(0, i as int)));
            assert(done.last() == messages@[i as int]@);
        }
        i = i + 1;
    }
    assert(messages@.subrange(0, messages@.len() as int) =~= messages@);
    html
}

} // verus!
