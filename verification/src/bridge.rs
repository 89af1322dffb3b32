use vstd::prelude::*;
use vstd::string::*;

verus! {

/// True when a page-to-host message carries an extracted-markup payload:
/// it begins with the fixed `HTML:` tag.
pub open spec fn has_html_tag(m: Seq<char>) -> bool {
    m.len() >= 5 && m.subrange(0, 5) == "HTML:"@
}

/// The markup payload of a tagged message: everything after the tag.
pub open spec fn html_payload(m: Seq<char>) -> Seq<char> {
    m.subrange(5, m.len() as int)
}

/// Parses one message from the extraction bridge: a message tagged as an
/// HTML payload yields the payload with the tag stripped; any other message
/// is ignored.
pub fn parse_bridge_message(msg: &str) -> (r: Option<String>)
    ensures
        has_html_tag(msg@) ==> (r matches Some(p) && p@ == html_payload(msg@)),
        !has_html_tag(msg@) ==> r is None,
{
    let n = msg.unicode_len();
    proof {
        reveal_strlit("HTML:");
    }
    if n < 5 {
        return None;
    }
    if msg.get_char(0) == 'H' && msg.get_char(1) == 'T' && msg.get_char(2) == 'M' && msg.get_char(
        3,
    ) == 'L' && msg.get_char(4) == ':' {
        proof {
            assert(msg@.subrange(0, 5) =~= "HTML:"@);
        }
        Some(String::from_str(msg.substring_char(5, n)))
    } else {
        proof {
            assert(msg@.subrange(0, 5) != "HTML:"@) by {
                if msg@.subrange(0, 5) == "HTML:"@ {
                    assert(msg@.subrange(0, 5)[0] == msg@[0]);
                    assert(msg@.subrange(0, 5)[1] == msg@[1]);
                    assert(msg@.subrange(0, 5)[2] == msg@[2]);
                    assert(msg@.subrange(0, 5)[3] == msg@[3]);
                    assert(msg@.subrange(0, 5)[4] == msg@[4]);
                }
            }
        }
        None
    }
}

/// Applies one bridge message to a session's result slot, as the bridge's
/// handler does: a tagged message stores its payload (a later message
/// overwrites an earlier one — last write wins); any other message leaves
/// the slot alone.
pub fn bridge_store(slot: &mut Option<String>, msg: &str)
    ensures
        has_html_tag(msg@) ==> (*final(slot) matches Some(p) && p@ == html_payload(msg@)),
        !has_html_tag(msg@) ==> *final(slot) == *old(slot),
{
    match parse_bridge_message(msg) {
        Some(payload) => {
            *slot = Some(payload);
        },
        None => {},
    }
}

} // verus!
