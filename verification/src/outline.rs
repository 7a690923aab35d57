//! Outline (bookmark) items collected during page rendering.
use vstd::prelude::*;

use crate::emit::dec_bytes;
use crate::emit::lit_bytes;
use crate::emit::push_bytes;
use crate::emit::push_dec_usize;
use crate::emit::push_str;
use crate::encoding::Encoding;
use crate::encoding::EncodingKind;
use crate::encoding::enc_string_bytes;

verus! {

/// A bookmark entry: a title and, once the page it was created on has
/// been written, that page's object id.
#[derive(Debug, Clone)]
pub struct OutlineItem {
    /// The text shown in the bookmark tree.
    pub title: String,
    /// The object id of the page the bookmark points at; zero until
    /// the page has been written.
    pub page: usize,
}

/// The body of one outline item's dictionary, between `N 0 obj` and
/// `endobj`: title, destination, parent, and the sibling references
/// that place it in the chain.
pub open spec fn outline_item_bytes(
    title: Seq<char>,
    page: nat,
    parent: nat,
    prev: Option<nat>,
    next: Option<nat>,
) -> Seq<u8> {
    lit_bytes("<< /Title (") + enc_string_bytes(EncodingKind::WinAnsi, title) + lit_bytes(
        ")\n   /Dest [",
    ) + dec_bytes(page) + lit_bytes(" 0 R /XYZ null null null]\n   /Parent ") + dec_bytes(parent)
        + lit_bytes(" 0 R\n") + (match prev {
        Some(p) => lit_bytes("   /Prev ") + dec_bytes(p) + lit_bytes(" 0 R\n"),
        None => Seq::<u8>::empty(),
    }) + (match next {
        Some(nx) => lit_bytes("   /Next ") + dec_bytes(nx) + lit_bytes(" 0 R\n"),
        None => Seq::<u8>::empty(),
    }) + lit_bytes(">>\n")
}

impl OutlineItem {
    /// A bookmark with the given title, not yet tied to a page.
    pub fn new(title: &str) -> (r: OutlineItem)
        ensures
            r.title@ == title@,
            r.page == 0,
    {
        OutlineItem { title: title.to_owned(), page: 0 }
    }

    /// Record the object id of the page this bookmark points at.
    pub fn set_page(&mut self, page: usize)
        ensures
            final(self).title == old(self).title,
            final(self).page == page,
    {
        self.page = page;
    }

    /// Append this item's dictionary body, with the given parent and
    /// sibling references.
    #[verifier::rlimit(60)]
    pub fn write_dictionary(
        &self,
        out: &mut Vec<u8>,
        parent: usize,
        prev: Option<usize>,
        next: Option<usize>,
    )
        ensures
            final(out)@ == old(out)@ + outline_item_bytes(
                self.title@,
                self.page as nat,
                parent as nat,
                match prev {
                    Some(p) => Some(p as nat),
                    None => None,
                },
                match next {
                    Some(nx) => Some(nx as nat),
                    None => None,
                },
            ),
    {
        let enc = Encoding::new(EncodingKind::WinAnsi);
        let title_bytes = enc.encode_string(self.title.as_str());
        push_str(out, "<< /Title (");
        push_bytes(out, &title_bytes);
        push_str(out, ")\n   /Dest [");
        push_dec_usize(out, self.page);
        push_str(out, " 0 R /XYZ null null null]\n   /Parent ");
        push_dec_usize(out, parent);
        push_str(out, " 0 R\n");
        match prev {
            Some(p) => {
                push_str(out, "   /Prev ");
                push_dec_usize(out, p);
                push_str(out, " 0 R\n");
            },
            None => {},
        }
        match next {
            Some(nx) => {
                push_str(out, "   /Next ");
                push_dec_usize(out, nx);
                push_str(out, " 0 R\n");
            },
            None => {},
        }
        push_str(out, ">>\n");
        assert(final(out)@ =~= old(out)@ + outline_item_bytes(
            self.title@,
            self.page as nat,
            parent as nat,
            match prev {
                Some(p) => Some(p as nat),
                None => None,
            },
            match next {
                Some(nx) => Some(nx as nat),
                None => None,
            },
        ));
    }
}

} // verus!
