use vstd::prelude::*;

verus! {

/// A hyperlink scraped from a page: its text and its target.
#[derive(Debug, Clone, PartialEq, Eq)]
pub struct Link {
    pub title: String,
    pub location: String,
}

#[derive(Debug, Clone, Copy, PartialEq, Eq, Structural)]
pub enum Format {
    Bold,
    Italic,
}

/// One flattened piece of an HTML fragment's text.
#[derive(Debug, Clone, PartialEq, Eq)]
pub enum HtmlText {
    Break,
    Blockquote,
    Text(String),
    LinkText(Link),
    FormatText(String, Format),
}

/// The titles of the links, joined by the separator.
pub open spec fn spec_list_to_str(list: Seq<Link>, sep: Seq<char>) -> Seq<char>
    decreases list.len(),
{
    if list.len() == 0 {
        Seq::empty()
    } else if list.len() == 1 {
        list[0].title@
    } else {
        spec_list_to_str(list.drop_last(), sep) + sep + list.last().title@
    }
}

/// Joins the titles of a list of links with a separator.
pub fn list_to_str(list: &Vec<Link>, sep: &str) -> (r: String)
    ensures
        r@ == spec_list_to_str(list@, sep@),
{
    let mut out = String::new();
    let mut i: usize = 0;
    proof {
        assert(out@ =~= spec_list_to_str(list@.take(0), sep@));
    }
    while i < list.len()
        invariant
            i <= list.len(),
            out@ == spec_list_to_str(list@.take(i as int), sep@),
        decreases list.len() - i,
    {
        if i > 0 {
            out.push_str(sep);
        }
        out.push_str(list[i].title.as_str());
        i = i + 1;
        proof {
            let t = list@.take(i as int);
            assert(t.drop_last() =~= list@.take(i as int - 1));
            assert(t.last() == list@[i as int - 1]);
            if i > 1 {
                assert(out@ =~= spec_list_to_str(t, sep@));
            } else {
                assert(out@ =~= spec_list_to_str(t, sep@));
            }
        }
    }
    proof {
        assert(list@.take(list@.len() as int) =~= list@);
    }
    out
}

} // verus!
