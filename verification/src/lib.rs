//! A library for building PDF files in memory.
//!
//! Simple vector graphics and text set in the 14 built-in fonts are
//! supported. The main entry point of the crate is the [`Pdf`] struct,
//! representing a PDF document being written: pages are drawn on a
//! [`Canvas`](canvas::Canvas) and appended with [`Pdf::render_page`],
//! and [`Pdf::finish`] produces the complete file as bytes, with the
//! cross-reference table pointing at the exact position of every
//! object written.
use vstd::prelude::*;

pub mod canvas;
pub mod clock;
pub mod emit;
pub mod encoding;
pub mod fontmetrics;
pub mod fontref;
pub mod fontsource;
pub mod graphicsstate;
pub mod outline;
pub mod textobject;
pub mod units;

use crate::emit::dec_bytes;
use crate::emit::lit_bytes;
use crate::emit::push_bytes;
use crate::emit::push_dec_u128;
use crate::emit::push_dec_usize;
use crate::emit::push_str;
use crate::emit::push_string;
use crate::units::UserSpace;
use crate::fontsource::Font;
use crate::fontsource::FontKey;
use crate::outline::OutlineItem;
use crate::outline::outline_item_bytes;

verus! {

broadcast use vstd::string::group_string_axioms;

/// The fixed two-line file header: the version line, then a comment
/// line holding four high-bit bytes so that naive tools detect the
/// file as binary.
pub open spec fn header_bytes() -> Seq<u8> {
    lit_bytes("%PDF-1.7\n%") + seq![181u8, 237u8, 174u8, 251u8, 10u8]
}

/// The header is fifteen bytes long.
pub proof fn lemma_header_len()
    ensures
        header_bytes().len() == 15,
{
    reveal_strlit("%PDF-1.7\n%");
    assert(vstd::utf8::is_ascii_chars("%PDF-1.7\n%"@));
    crate::emit::lit_bytes_ascii("%PDF-1.7\n%");
}

/// The opening token of an indirect object, `N 0 obj` on its own
/// line.
pub open spec fn obj_start_bytes(id: int) -> Seq<u8> {
    dec_bytes(id as nat) + lit_bytes(" 0 obj\n")
}

/// A whole indirect object: its opening token, its body, and the
/// closing `endobj` line.
pub open spec fn obj_wrap(id: int, payload: Seq<u8>) -> Seq<u8> {
    obj_start_bytes(id) + payload + lit_bytes("endobj\n")
}

/// An object's framing costs at least fifteen bytes beyond its body.
pub proof fn lemma_obj_wrap_len(id: int, payload: Seq<u8>)
    ensures
        obj_wrap(id, payload).len() >= 15 + payload.len(),
        obj_wrap(id, payload).len() == obj_start_bytes(id).len() + payload.len() + 7,
{
    reveal_strlit(" 0 obj\n");
    assert(vstd::utf8::is_ascii_chars(" 0 obj\n"@));
    crate::emit::lit_bytes_ascii(" 0 obj\n");
    reveal_strlit("endobj\n");
    assert(vstd::utf8::is_ascii_chars("endobj\n"@));
    crate::emit::lit_bytes_ascii("endobj\n");
    assert(dec_bytes(id as nat).len() >= 1);
}

/// The bytes of the file begin, at `off`, with the opening token of
/// object `id`.
pub open spec fn obj_header_at(bs: Seq<u8>, off: int, id: int) -> bool {
    &&& 0 <= off
    &&& off + obj_start_bytes(id).len() <= bs.len()
    &&& bs.subrange(off, off + obj_start_bytes(id).len() as int) == obj_start_bytes(id)
}

/// Appending bytes to the file moves no object's opening token.
pub proof fn lemma_obj_header_at_append(bs: Seq<u8>, ext: Seq<u8>, off: int, id: int)
    requires
        obj_header_at(bs, off, id),
    ensures
        obj_header_at(bs + ext, off, id),
{
    let n = obj_start_bytes(id).len() as int;
    assert((bs + ext).subrange(off, off + n) =~= bs.subrange(off, off + n));
}

/// The in-memory state of a document being written: the bytes of the
/// file so far, the byte offset of every allocated object id (`None`
/// while the object is allocated but not yet written), the pages in
/// emission order, the font objects written so far with their
/// identities, the pending outline items with the object id of their
/// page, and the metadata values by field.
pub ghost struct PdfView {
    /// The bytes written so far.
    pub out: Seq<u8>,
    /// For each allocated object id, where its object starts; index 0
    /// is the reserved free-object sentinel.
    pub offsets: Seq<Option<int>>,
    /// The object id of each page, in emission order.
    pub pages: Seq<int>,
    /// The font objects written, by identity.
    pub fonts: Seq<(FontKey, int)>,
    /// The pending outline items: title and page object id.
    pub outline: Seq<(Seq<char>, int)>,
    /// The metadata fields, by rank; see [`meta_name_bytes`].
    pub info: Seq<Option<Seq<char>>>,
}

/// The name of the metadata field stored at a given rank, in the
/// alphabetical order the info dictionary uses.
pub open spec fn meta_name_bytes(i: int) -> Seq<u8> {
    if i == 0 {
        lit_bytes("Author")
    } else if i == 1 {
        lit_bytes("Creator")
    } else if i == 2 {
        lit_bytes("Keywords")
    } else if i == 3 {
        lit_bytes("Producer")
    } else if i == 4 {
        lit_bytes("Subject")
    } else if i == 5 {
        lit_bytes("Title")
    } else {
        Seq::<u8>::empty()
    }
}

/// How many metadata fields the info dictionary can hold.
pub const META_FIELDS: usize = 6;

/// The basic well-formedness of the object table: the sentinel slot
/// is never written, every recorded offset points at its object's
/// opening token, and the table stays far enough behind the output
/// that allocating an id can never overflow.
pub open spec fn table_ok(out: Seq<u8>, offsets: Seq<Option<int>>) -> bool {
    &&& offsets.len() >= 1
    &&& offsets[0] is None
    &&& forall|i: int|
        1 <= i < offsets.len() ==> ((#[trigger] offsets[i]) matches Some(off) ==> obj_header_at(
            out,
            off,
            i,
        ))
    &&& 15 * offsets.len() <= out.len() + 45
}

/// A well-formed document between operations: the object table is
/// sound, the catalog and page-tree slots are reserved and not yet
/// written, every other allocated object has been written, and every
/// id the emitted references name is an allocated object.
pub open spec fn wf(m: PdfView) -> bool {
    &&& table_ok(m.out, m.offsets)
    &&& m.offsets.len() >= 3
    &&& m.offsets[1] is None
    &&& m.offsets[2] is None
    &&& forall|i: int| 3 <= i < m.offsets.len() ==> (#[trigger] m.offsets[i]) is Some
    &&& forall|i: int| 0 <= i < m.pages.len() ==> 3 <= #[trigger] m.pages[i] < m.offsets.len()
    &&& forall|i: int| 0 <= i < m.fonts.len() ==> 3 <= (#[trigger] m.fonts[i]).1 < m.offsets.len()
    &&& forall|i: int, j: int| 0 <= i < j < m.fonts.len() ==> m.fonts[i].0 != m.fonts[j].0
    &&& forall|i: int|
        0 <= i < m.outline.len() ==> 3 <= (#[trigger] m.outline[i]).1 < m.offsets.len()
    &&& m.info.len() == META_FIELDS
}

/// The top-level object for writing a PDF.
///
/// A document is created with [`Pdf::new`]. Some metadata can be
/// stored with the `set_` methods, and pages are appended with
/// [`Pdf::render_page`]. Don't forget to call [`Pdf::finish`] when
/// done, to write the document trailer; without it the bytes are not
/// a proper PDF.
#[derive(Debug)]
pub struct Pdf {
    out: Vec<u8>,
    object_offsets: Vec<Option<usize>>,
    page_object_ids: Vec<usize>,
    font_object_ids: Vec<(Font, usize)>,
    outline: Vec<OutlineItem>,
    info: Vec<Option<String>>,
}

impl View for Pdf {
    type V = PdfView;

    closed spec fn view(&self) -> PdfView {
        PdfView {
            out: self.out@,
            offsets: self.object_offsets@.map_values(
                |o: Option<usize>|
                    match o {
                        Some(v) => Some(v as int),
                        None => None,
                    },
            ),
            pages: self.page_object_ids@.map_values(|p: usize| p as int),
            fonts: self.font_object_ids@.map_values(|p: (Font, usize)| (p.0.key(), p.1 as int)),
            outline: self.outline@.map_values(|o: OutlineItem| (o.title@, o.page as int)),
            info: self.info@.map_values(
                |o: Option<String>|
                    match o {
                        Some(s) => Some(s@),
                        None => None,
                    },
            ),
        }
    }
}

impl Pdf {
    /// Create a new, empty PDF document in memory, with the file
    /// header written and the catalog and page-tree ids reserved.
    pub fn new() -> (r: Pdf)
        ensures
            wf(r@),
            r@.out == header_bytes(),
            r@.offsets =~= seq![Option::<int>::None, Option::<int>::None, Option::<int>::None],
            r@.pages =~= Seq::<int>::empty(),
            r@.fonts =~= Seq::<(FontKey, int)>::empty(),
            r@.outline =~= Seq::<(Seq<char>, int)>::empty(),
            r@.info =~= Seq::new(META_FIELDS as nat, |i: int| Option::<Seq<char>>::None),
    {
        let mut out: Vec<u8> = Vec::new();
        push_str(&mut out, "%PDF-1.7\n%");
        out.push(181);
        out.push(237);
        out.push(174);
        out.push(251);
        out.push(10);
        let mut object_offsets: Vec<Option<usize>> = Vec::new();
        object_offsets.push(None);
        object_offsets.push(None);
        object_offsets.push(None);
        let mut info: Vec<Option<String>> = Vec::new();
        let mut k: usize = 0;
        while k < META_FIELDS
            invariant
                k <= META_FIELDS,
                info@ =~= Seq::new(k as nat, |i: int| Option::<String>::None),
            decreases META_FIELDS - k,
        {
            info.push(None);
            assert(info@ =~= Seq::new((k + 1) as nat, |i: int| Option::<String>::None));
            k = k + 1;
        }
        let r = Pdf {
            out,
            object_offsets,
            page_object_ids: Vec::new(),
            font_object_ids: Vec::new(),
            outline: Vec::new(),
            info,
        };
        proof {
            lemma_header_len();
            assert(r@.out =~= header_bytes());
            assert(r@.offsets =~= seq![
                Option::<int>::None,
                Option::<int>::None,
                Option::<int>::None,
            ]);
            assert(r@.info =~= Seq::new(META_FIELDS as nat, |i: int| Option::<Seq<char>>::None));
        }
        r
    }

    /// Allocate the next object id and write a whole object with the
    /// given body at the end of the file, recording its offset.
    fn append_object(&mut self, payload: &Vec<u8>) -> (id: usize)
        requires
            table_ok(old(self)@.out, old(self)@.offsets),
        ensures
            table_ok(final(self)@.out, final(self)@.offsets),
            id == old(self)@.offsets.len(),
            final(self)@.out == old(self)@.out + obj_wrap(id as int, payload@),
            final(self)@.offsets =~= old(self)@.offsets.push(Some(old(self)@.out.len() as int)),
            final(self)@.pages == old(self)@.pages,
            final(self)@.fonts == old(self)@.fonts,
            final(self)@.outline == old(self)@.outline,
            final(self)@.info == old(self)@.info,
    {
        let id = self.object_offsets.len();
        let off = self.out.len();
        push_dec_usize(&mut self.out, id);
        push_str(&mut self.out, " 0 obj\n");
        push_bytes(&mut self.out, payload);
        push_str(&mut self.out, "endobj\n");
        self.object_offsets.push(Some(off));
        proof {
            lemma_obj_wrap_len(id as int, payload@);
            assert(self@.out =~= old(self)@.out + obj_wrap(id as int, payload@));
            assert(self@.offsets =~= old(self)@.offsets.push(Some(off as int)));
            assert(self@.out.subrange(
                off as int,
                off + obj_start_bytes(id as int).len() as int,
            ) =~= obj_start_bytes(id as int));
            assert forall|i: int|
                1 <= i < self@.offsets.len() implies ((#[trigger] self@.offsets[i]) matches Some(o)
                ==> obj_header_at(self@.out, o, i)) by {
                if i < id && self@.offsets[i] is Some {
                    assert(old(self)@.offsets[i] == self@.offsets[i]);
                    lemma_obj_header_at_append(
                        old(self)@.out,
                        obj_wrap(id as int, payload@),
                        self@.offsets[i]->Some_0,
                        i,
                    );
                }
            }
        }
        id
    }

    /// Write a whole object with the given body at the end of the
    /// file, under an id that was reserved earlier.
    fn write_object_at(&mut self, id: usize, payload: &Vec<u8>)
        requires
            table_ok(old(self)@.out, old(self)@.offsets),
            1 <= id < old(self)@.offsets.len(),
            old(self)@.offsets[id as int] is None,
        ensures
            table_ok(final(self)@.out, final(self)@.offsets),
            final(self)@.out == old(self)@.out + obj_wrap(id as int, payload@),
            final(self)@.offsets =~= old(self)@.offsets.update(
                id as int,
                Some(old(self)@.out.len() as int),
            ),
            final(self)@.pages == old(self)@.pages,
            final(self)@.fonts == old(self)@.fonts,
            final(self)@.outline == old(self)@.outline,
            final(self)@.info == old(self)@.info,
    {
        let off = self.out.len();
        push_dec_usize(&mut self.out, id);
        push_str(&mut self.out, " 0 obj\n");
        push_bytes(&mut self.out, payload);
        push_str(&mut self.out, "endobj\n");
        self.object_offsets[id] = Some(off);
        proof {
            lemma_obj_wrap_len(id as int, payload@);
            assert(self@.out =~= old(self)@.out + obj_wrap(id as int, payload@));
            assert(self@.offsets =~= old(self)@.offsets.update(id as int, Some(off as int)));
            assert(self@.out.subrange(
                off as int,
                off + obj_start_bytes(id as int).len() as int,
            ) =~= obj_start_bytes(id as int));
            assert forall|i: int|
                1 <= i < self@.offsets.len() implies ((#[trigger] self@.offsets[i]) matches Some(o)
                ==> obj_header_at(self@.out, o, i)) by {
                if i != id && self@.offsets[i] is Some {
                    assert(old(self)@.offsets[i] == self@.offsets[i]);
                    lemma_obj_header_at_append(
                        old(self)@.out,
                        obj_wrap(id as int, payload@),
                        self@.offsets[i]->Some_0,
                        i,
                    );
                }
            }
        }
    }

    /// Set metadata: the document's title.
    pub fn set_title(&mut self, title: &str)
        requires
            wf(old(self)@),
        ensures
            wf(final(self)@),
            final(self)@ == (PdfView {
                info: old(self)@.info.update(5, Some(title@)),
                ..old(self)@
            }),
    {
        self.set_meta(5, title);
    }

    /// Set metadata: the name of the person who created the document.
    pub fn set_author(&mut self, author: &str)
        requires
            wf(old(self)@),
        ensures
            wf(final(self)@),
            final(self)@ == (PdfView {
                info: old(self)@.info.update(0, Some(author@)),
                ..old(self)@
            }),
    {
        self.set_meta(0, author);
    }

    /// Set metadata: the subject of the document.
    pub fn set_subject(&mut self, subject: &str)
        requires
            wf(old(self)@),
        ensures
            wf(final(self)@),
            final(self)@ == (PdfView {
                info: old(self)@.info.update(4, Some(subject@)),
                ..old(self)@
            }),
    {
        self.set_meta(4, subject);
    }

    /// Set metadata: keywords associated with the document.
    pub fn set_keywords(&mut self, keywords: &str)
        requires
            wf(old(self)@),
        ensures
            wf(final(self)@),
            final(self)@ == (PdfView {
                info: old(self)@.info.update(2, Some(keywords@)),
                ..old(self)@
            }),
    {
        self.set_meta(2, keywords);
    }

    /// Set metadata: if the document was converted to PDF from
    /// another format, the name of the conforming product that created
    /// the original document from which it was converted.
    pub fn set_creator(&mut self, creator: &str)
        requires
            wf(old(self)@),
        ensures
            wf(final(self)@),
            final(self)@ == (PdfView {
                info: old(self)@.info.update(1, Some(creator@)),
                ..old(self)@
            }),
    {
        self.set_meta(1, creator);
    }

    /// Set metadata: if the document was converted to PDF from
    /// another format, the name of the conforming product that
    /// converted it to PDF.
    pub fn set_producer(&mut self, producer: &str)
        requires
            wf(old(self)@),
        ensures
            wf(final(self)@),
            final(self)@ == (PdfView {
                info: old(self)@.info.update(3, Some(producer@)),
                ..old(self)@
            }),
    {
        self.set_meta(3, producer);
    }

    /// Store one metadata field.
    fn set_meta(&mut self, rank: usize, value: &str)
        requires
            wf(old(self)@),
            rank < META_FIELDS,
        ensures
            wf(final(self)@),
            final(self)@ == (PdfView {
                info: old(self)@.info.update(rank as int, Some(value@)),
                ..old(self)@
            }),
    {
        self.info[rank] = Some(value.to_owned());
        proof {
            assert(self@.info =~= old(self)@.info.update(rank as int, Some(value@)));
            assert(self@ == (PdfView {
                info: old(self)@.info.update(rank as int, Some(value@)),
                ..old(self)@
            }));
        }
    }
}


/// The body of a content-stream object up to the stream keyword: the
/// length is an indirect reference to the next object id, resolved
/// once the stream has been measured.
pub open spec fn content_stream_payload(length_id: int, content: Seq<u8>) -> Seq<u8> {
    lit_bytes("<< /Length ") + dec_bytes(length_id as nat) + lit_bytes(" 0 R >>\nstream\n")
        + stream_data_bytes(content) + lit_bytes("endstream\n")
}

/// What lies between the stream keyword's line terminator and the
/// endstream token: the colorspace prelude, then the page's drawing
/// operators.
pub open spec fn stream_data_bytes(content: Seq<u8>) -> Seq<u8> {
    lit_bytes("/DeviceRGB cs /DeviceRGB CS\n") + content
}

/// The body of the length object that the stream's `/Length`
/// reference resolves to.
pub open spec fn length_payload(stream_len: int) -> Seq<u8> {
    dec_bytes(stream_len as nat) + lit_bytes("\n")
}

/// The integer held by a content stream's length object equals the
/// exact byte count between the stream keyword's line terminator and
/// the endstream token.
pub proof fn lemma_length_correct(content: Seq<u8>)
    ensures
        length_payload(28 + content.len() as int) == dec_bytes(stream_data_bytes(content).len())
            + lit_bytes("\n"),
        stream_data_bytes(content).len() == 28 + content.len(),
{
    reveal_strlit("/DeviceRGB cs /DeviceRGB CS\n");
    assert(vstd::utf8::is_ascii_chars("/DeviceRGB cs /DeviceRGB CS\n"@));
    crate::emit::lit_bytes_ascii("/DeviceRGB cs /DeviceRGB CS\n");
}

/// The body of a font object: a Type1 font dictionary naming the base
/// font and the base encoding.
pub open spec fn font_payload(k: FontKey) -> Seq<u8> {
    lit_bytes("<< /Type /Font /Subtype /Type1 /BaseFont /") + crate::emit::str_bytes(k.name)
        + lit_bytes(" /Encoding /") + crate::emit::str_bytes(crate::encoding::base_name_of(k.base))
        + lit_bytes(" >>\n")
}

/// The object id recorded for a font identity, if one was written.
pub open spec fn font_lookup(fs: Seq<(FontKey, int)>, k: FontKey) -> Option<int>
    decreases fs.len(),
{
    if fs.len() == 0 {
        None
    } else if fs[0].0 == k {
        Some(fs[0].1)
    } else {
        font_lookup(fs.subrange(1, fs.len() as int), k)
    }
}

/// A font identity is absent exactly when no entry carries it.
pub proof fn lemma_font_lookup_none(fs: Seq<(FontKey, int)>, k: FontKey)
    ensures
        font_lookup(fs, k) is None <==> (forall|i: int| 0 <= i < fs.len() ==> (#[trigger] fs[i]).0
            != k),
    decreases fs.len(),
{
    if fs.len() > 0 {
        let tail = fs.subrange(1, fs.len() as int);
        lemma_font_lookup_none(tail, k);
        if font_lookup(fs, k) is None {
            assert forall|i: int| 0 <= i < fs.len() implies (#[trigger] fs[i]).0 != k by {
                if i >= 1 {
                    assert(tail[i - 1] == fs[i]);
                }
            }
        }
        if forall|i: int| 0 <= i < fs.len() ==> (#[trigger] fs[i]).0 != k {
            assert forall|i: int| 0 <= i < tail.len() implies (#[trigger] tail[i]).0 != k by {
                assert(tail[i] == fs[i + 1]);
            }
            assert(font_lookup(tail, k) is None);
        }
    }
}

/// A recorded font object id lies among the entries.
pub proof fn lemma_font_lookup_some(fs: Seq<(FontKey, int)>, k: FontKey)
    ensures
        font_lookup(fs, k) matches Some(oid) ==> exists|i: int|
            0 <= i < fs.len() && #[trigger] fs[i] == (k, oid),
    decreases fs.len(),
{
    if fs.len() > 0 && fs[0].0 != k {
        lemma_font_lookup_some(fs.subrange(1, fs.len() as int), k);
        if font_lookup(fs, k) is Some {
            let oid = font_lookup(fs, k)->Some_0;
            let i = choose|i: int|
                0 <= i < fs.subrange(1, fs.len() as int).len() && #[trigger] fs.subrange(
                    1,
                    fs.len() as int,
                )[i] == (k, oid);
            assert(fs[i + 1] == (k, oid));
        }
    }
}

/// What writing a page's fonts does, font by font: a font whose
/// identity was already written is reused; a new identity gets the
/// next object id, its object's bytes, and a registration.
pub ghost struct FontFold {
    /// The font registrations afterwards.
    pub fonts: Seq<(FontKey, int)>,
    /// The font objects emitted, in order.
    pub bytes: Seq<u8>,
    /// The object id resolved for each of the page's fonts.
    pub ids: Seq<int>,
    /// The next free object id afterwards.
    pub next: int,
}

/// Resolve a page's fonts against the document's registrations,
/// front to back.
pub open spec fn fold_fonts(fs: Seq<(FontKey, int)>, page: Seq<Font>, next: int) -> FontFold
    decreases page.len(),
{
    if page.len() == 0 {
        FontFold { fonts: fs, bytes: Seq::<u8>::empty(), ids: Seq::<int>::empty(), next }
    } else {
        let k = page[0].key();
        match font_lookup(fs, k) {
            Some(oid) => {
                let rest = fold_fonts(fs, page.subrange(1, page.len() as int), next);
                FontFold {
                    fonts: rest.fonts,
                    bytes: rest.bytes,
                    ids: seq![oid] + rest.ids,
                    next: rest.next,
                }
            },
            None => {
                let rest = fold_fonts(
                    fs.push((k, next)),
                    page.subrange(1, page.len() as int),
                    next + 1,
                );
                FontFold {
                    fonts: rest.fonts,
                    bytes: obj_wrap(next, font_payload(k)) + rest.bytes,
                    ids: seq![next] + rest.ids,
                    next: rest.next,
                }
            },
        }
    }
}

/// A font already registered stays registered, under the same id,
/// and resolving it emits no new font object: this is what
/// deduplicates fonts across pages.
pub proof fn lemma_font_dedup(fs: Seq<(FontKey, int)>, f: Font, next: int)
    ensures
        font_lookup(fs, f.key()) matches Some(oid) ==> fold_fonts(fs, seq![f], next)
            == (FontFold { fonts: fs, bytes: Seq::<u8>::empty(), ids: seq![oid], next }),
        font_lookup(fs, f.key()) is None ==> fold_fonts(fs, seq![f], next) == (FontFold {
            fonts: fs.push((f.key(), next)),
            bytes: obj_wrap(next, font_payload(f.key())),
            ids: seq![next],
            next: next + 1,
        }),
{
    let page = seq![f];
    assert(page.len() == 1);
    assert(page[0] == f);
    assert(page.subrange(1, 1) =~= Seq::<Font>::empty());
    let empty_rest = fold_fonts(fs, Seq::<Font>::empty(), next);
    if font_lookup(fs, f.key()) is Some {
        let oid = font_lookup(fs, f.key())->Some_0;
        let rest = fold_fonts(fs, page.subrange(1, 1), next);
        assert(rest == empty_rest);
        assert(fold_fonts(fs, page, next).bytes == rest.bytes);
        assert(fold_fonts(fs, page, next).ids =~= seq![oid]);
    } else {
        let rest = fold_fonts(fs.push((f.key(), next)), page.subrange(1, 1), next + 1);
        assert(rest == fold_fonts(fs.push((f.key(), next)), Seq::<Font>::empty(), next + 1));
        assert(fold_fonts(fs, page, next).ids =~= seq![next]);
        assert(fold_fonts(fs, page, next).bytes =~= obj_wrap(next, font_payload(f.key())));
    }
}

/// Ranges carried through the fold: ids stay allocated and in order.
pub proof fn lemma_fold_fonts_bounds(fs: Seq<(FontKey, int)>, page: Seq<Font>, next: int)
    requires
        next >= 3,
        forall|i: int| 0 <= i < fs.len() ==> 3 <= (#[trigger] fs[i]).1 < next,
        forall|i: int, j: int| 0 <= i < j < fs.len() ==> fs[i].0 != fs[j].0,
    ensures
        ({
            let ff = fold_fonts(fs, page, next);
            &&& ff.next >= next
            &&& ff.next - next <= page.len()
            &&& forall|i: int| 0 <= i < ff.fonts.len() ==> 3 <= (#[trigger] ff.fonts[i]).1 < ff.next
            &&& forall|i: int, j: int| 0 <= i < j < ff.fonts.len() ==> ff.fonts[i].0 != ff.fonts[j].0
            &&& forall|i: int| 0 <= i < ff.ids.len() ==> 3 <= #[trigger] ff.ids[i] < ff.next
            &&& ff.ids.len() == page.len()
        }),
    decreases page.len(),
{
    if page.len() > 0 {
        let k = page[0].key();
        let tail = page.subrange(1, page.len() as int);
        match font_lookup(fs, k) {
            Some(oid) => {
                lemma_font_lookup_some(fs, k);
                lemma_fold_fonts_bounds(fs, tail, next);
            },
            None => {
                lemma_font_lookup_none(fs, k);
                let fs2 = fs.push((k, next));
                assert(forall|i: int| 0 <= i < fs2.len() ==> 3 <= (#[trigger] fs2[i]).1 < next + 1);
                assert forall|i: int, j: int| 0 <= i < j < fs2.len() implies fs2[i].0 != fs2[j].0 by {
                    if j == fs.len() {
                        assert(fs2[i].0 == fs[i].0);
                    }
                }
                lemma_fold_fonts_bounds(fs2, tail, next + 1);
            },
        }
    }
}

/// The page resource table: each per-page font name paired with its
/// font object id.
pub open spec fn page_refs(ids: Seq<int>) -> Seq<(int, int)> {
    Seq::new(ids.len(), |i: int| (i, ids[i]))
}

/// The entries of the page's font resource dictionary, in per-page
/// name order.
pub open spec fn font_refs_bytes(refs: Seq<(int, int)>) -> Seq<u8>
    decreases refs.len(),
{
    if refs.len() == 0 {
        Seq::<u8>::empty()
    } else {
        font_refs_bytes(refs.drop_last()) + lit_bytes("/F") + dec_bytes(refs.last().0 as nat)
            + lit_bytes(" ") + dec_bytes(refs.last().1 as nat) + lit_bytes(" 0 R ")
    }
}

/// The body of a page dictionary: parent, font resources, media box
/// and the content-stream reference.
pub open spec fn page_payload(w: int, h: int, refs: Seq<(int, int)>, content_id: int) -> Seq<u8> {
    lit_bytes("<< /Type /Page\n   /Parent 2 0 R\n   /Resources << /Font << ") + font_refs_bytes(
        refs,
    ) + lit_bytes(">> >>\n   /MediaBox [0 0 ") + crate::emit::milli_bytes(w) + lit_bytes(" ")
        + crate::emit::milli_bytes(h) + lit_bytes("]\n   /Contents ") + dec_bytes(content_id as nat)
        + lit_bytes(" 0 R\n>>\n")
}

/// The fonts of a page resolved against a document's registrations.
pub open spec fn render_fold(m: PdfView, c: canvas::Canvas) -> FontFold {
    fold_fonts(m.fonts, c.fonts@, m.offsets.len() as int + 2)
}

/// Everything one page appends to the file: the content stream, its
/// length object, the new font objects, and the page dictionary.
pub open spec fn render_emission(m: PdfView, c: canvas::Canvas, w: int, h: int) -> Seq<u8> {
    let cid = m.offsets.len() as int;
    let ff = render_fold(m, c);
    obj_wrap(cid, content_stream_payload(cid + 1, c.bytes@)) + obj_wrap(
        cid + 1,
        length_payload(28 + c.bytes@.len() as int),
    ) + ff.bytes + obj_wrap(ff.next, page_payload(w, h, page_refs(ff.ids), cid))
}

/// A copy of a font registration.
fn dup_font(f: &Font) -> (r: Font)
    ensures
        r.name@ == f.name@,
        r.encoding == f.encoding,
        r.key() == f.key(),
{
    Font { name: f.name.as_str().to_owned(), encoding: f.encoding }
}

/// Find a font identity among the written font objects.
fn font_lookup_exec(fs: &Vec<(Font, usize)>, target: &Font) -> (r: Option<usize>)
    ensures
        ({
            let view = fs@.map_values(|p: (Font, usize)| (p.0.key(), p.1 as int));
            match r {
                Some(oid) => font_lookup(view, target.key()) == Some(oid as int),
                None => font_lookup(view, target.key()) is None,
            }
        }),
{
    let ghost view = fs@.map_values(|p: (Font, usize)| (p.0.key(), p.1 as int));
    proof {
        assert(view.subrange(0, view.len() as int) =~= view);
    }
    let mut j: usize = 0;
    while j < fs.len()
        invariant
            j <= fs@.len(),
            view == fs@.map_values(|p: (Font, usize)| (p.0.key(), p.1 as int)),
            font_lookup(view, target.key()) == font_lookup(
                view.subrange(j as int, view.len() as int),
                target.key(),
            ),
        decreases fs@.len() - j,
    {
        if fs[j].0.same_identity(target) {
            proof {
                assert(view.subrange(j as int, view.len() as int)[0] == (target.key(), fs@[j as int].1 as int));
            }
            return Some(fs[j].1);
        }
        proof {
            assert(view.subrange(j as int, view.len() as int).subrange(
                1,
                view.subrange(j as int, view.len() as int).len() as int,
            ) =~= view.subrange(j + 1int, view.len() as int));
            assert(view.subrange(j as int, view.len() as int)[0] == (
                fs@[j as int].0.key(),
                fs@[j as int].1 as int,
            ));
        }
        j = j + 1;
    }
    proof {
        assert(view.subrange(view.len() as int, view.len() as int) =~= Seq::<(
            FontKey,
            int,
        )>::empty());
    }
    None
}

/// The per-page font names with the object ids they resolve to.
struct NamedRefs {
    oids: Vec<(usize, usize)>,
}

impl NamedRefs {
    /// An empty table with room for a page's fonts.
    fn with_capacity(capacity: usize) -> (r: Self)
        ensures
            r.oids@ =~= Seq::<(usize, usize)>::empty(),
    {
        NamedRefs { oids: Vec::with_capacity(capacity) }
    }

    /// Record that per-page font `name` resolves to `object_id`.
    fn insert(&mut self, name: usize, object_id: usize)
        ensures
            final(self).oids@ == old(self).oids@.push((name, object_id)),
    {
        self.oids.push((name, object_id));
    }
}




impl Pdf {
    /// Write the font objects a page needs: each font identity that
    /// the document has not written yet gets the next object id; one
    /// written before is reused. Returns the page's resource table,
    /// pairing each per-page font name with its font object id.
    #[verifier::rlimit(100)]
    fn write_page_fonts(&mut self, page_fonts: &Vec<Font>) -> (refs: NamedRefs)
        requires
            table_ok(old(self)@.out, old(self)@.offsets),
            3 <= old(self)@.offsets.len(),
            forall|i: int|
                0 <= i < old(self)@.fonts.len() ==> 3 <= (#[trigger] old(self)@.fonts[i]).1 < old(self)@.offsets.len(),
            forall|i: int, j: int|
                0 <= i < j < old(self)@.fonts.len() ==> old(self)@.fonts[i].0 != old(self)@.fonts[j].0,
        ensures
            ({
                let ff = fold_fonts(
                    old(self)@.fonts,
                    page_fonts@,
                    old(self)@.offsets.len() as int,
                );
                &&& table_ok(final(self)@.out, final(self)@.offsets)
                &&& final(self)@.out == old(self)@.out + ff.bytes
                &&& final(self)@.fonts == ff.fonts
                &&& final(self)@.offsets.len() == ff.next
                &&& forall|i: int|
                    0 <= i < old(self)@.offsets.len() ==> final(self)@.offsets[i] == old(self)@.offsets[i]
                &&& forall|i: int|
                    old(self)@.offsets.len() <= i < final(self)@.offsets.len() ==> (
                    #[trigger] final(self)@.offsets[i]) is Some
                &&& forall|i: int|
                    0 <= i < final(self)@.fonts.len() ==> 3 <= (#[trigger] final(self)@.fonts[i]).1 < final(self)@.offsets.len()
                &&& forall|i: int, j: int|
                    0 <= i < j < final(self)@.fonts.len() ==> final(self)@.fonts[i].0 != final(self)@.fonts[j].0
                &&& refs.oids@.map_values(|p: (usize, usize)| (p.0 as int, p.1 as int))
                    =~= page_refs(ff.ids)
                &&& final(self)@.pages == old(self)@.pages
                &&& final(self)@.outline == old(self)@.outline
                &&& final(self)@.info == old(self)@.info
            }),
    {
        let ghost m1 = self@;
        let ghost fs0 = self@.fonts;
        let ghost next0 = self@.offsets.len() as int;
        let ghost fonts_seq = page_fonts@;
        let ghost full = fold_fonts(fs0, fonts_seq, next0);
        let ghost out1 = self@.out;
        proof {
            assert(fonts_seq.subrange(0, fonts_seq.len() as int) =~= fonts_seq);
        }
        let mut font_oids = NamedRefs::with_capacity(page_fonts.len());
        let ghost mut ids_so_far: Seq<int> = Seq::<int>::empty();
        let ghost mut bytes_so_far: Seq<u8> = Seq::<u8>::empty();
        let mut fi: usize = 0;
        proof {
            assert(bytes_so_far + fold_fonts(
                self@.fonts,
                fonts_seq.subrange(fi as int, fonts_seq.len() as int),
                self@.offsets.len() as int,
            ).bytes =~= full.bytes);
            assert(ids_so_far + fold_fonts(
                self@.fonts,
                fonts_seq.subrange(fi as int, fonts_seq.len() as int),
                self@.offsets.len() as int,
            ).ids =~= full.ids);
            assert(out1 =~= out1 + bytes_so_far);
            assert(font_oids.oids@.map_values(|p: (usize, usize)| (p.0 as int, p.1 as int))
                =~= Seq::new(fi as nat, |i: int| (i, ids_so_far[i])));
        }
        while fi < page_fonts.len()
            invariant
                fi <= fonts_seq.len(),
                fonts_seq == page_fonts@,
                ids_so_far.len() == fi,
                table_ok(self@.out, self@.offsets),
                next0 <= self@.offsets.len(),
                forall|i: int| 0 <= i < next0 ==> self@.offsets[i] == m1.offsets[i],
                forall|i: int|
                    next0 <= i < self@.offsets.len() ==> (#[trigger] self@.offsets[i]) is Some,
                forall|i: int|
                    0 <= i < self@.fonts.len() ==> 3 <= (#[trigger] self@.fonts[i]).1
                        < self@.offsets.len(),
                forall|i: int, j: int|
                    0 <= i < j < self@.fonts.len() ==> self@.fonts[i].0 != self@.fonts[j].0,
                full == fold_fonts(fs0, fonts_seq, next0),
                ({
                    let rest = fold_fonts(
                        self@.fonts,
                        fonts_seq.subrange(fi as int, fonts_seq.len() as int),
                        self@.offsets.len() as int,
                    );
                    &&& full.fonts == rest.fonts
                    &&& full.next == rest.next
                    &&& full.bytes == bytes_so_far + rest.bytes
                    &&& full.ids == ids_so_far + rest.ids
                }),
                self@.out == out1 + bytes_so_far,
                font_oids.oids@.map_values(|p: (usize, usize)| (p.0 as int, p.1 as int))
                    =~= Seq::new(fi as nat, |i: int| (i, ids_so_far[i])),
                self@.pages == m1.pages,
                self@.outline == m1.outline,
                self@.info == m1.info,
                3 <= next0,
            decreases fonts_seq.len() - fi,
        {
            let ghost fs_cur = self@.fonts;
            let ghost next_cur = self@.offsets.len() as int;
            let ghost suffix = fonts_seq.subrange(fi as int, fonts_seq.len() as int);
            let ghost rest = fold_fonts(fs_cur, suffix, next_cur);
            proof {
                assert(suffix.len() > 0);
                assert(suffix[0] == fonts_seq[fi as int]);
                assert(suffix.subrange(1, suffix.len() as int) =~= fonts_seq.subrange(
                    fi + 1int,
                    fonts_seq.len() as int,
                ));
            }
            let found = font_lookup_exec(&self.font_object_ids, &page_fonts[fi]);
            let ghost k = fonts_seq[fi as int].key();
            match found {
                Some(oid) => {
                    let ghost oids_pre = font_oids.oids@;
                    let ghost ids_pre = ids_so_far;
                    font_oids.insert(fi, oid);
                    proof {
                        let rest2 = fold_fonts(
                            fs_cur,
                            fonts_seq.subrange(fi + 1int, fonts_seq.len() as int),
                            next_cur,
                        );
                        assert(rest.ids == seq![oid as int] + rest2.ids);
                        ids_so_far = ids_so_far.push(oid as int);
                        assert(full.ids =~= ids_so_far + rest2.ids);
                        assert(oids_pre.map_values(
                            |p: (usize, usize)| (p.0 as int, p.1 as int),
                        ).len() == oids_pre.len());
                        assert(oids_pre.len() == fi);
                        assert(font_oids.oids@ == oids_pre.push((fi, oid)));
                        assert forall|i: int| 0 <= i < fi + 1 implies font_oids.oids@.map_values(
                            |p: (usize, usize)| (p.0 as int, p.1 as int),
                        )[i] == (i, ids_so_far[i]) by {
                            if i < fi {
                                assert(oids_pre.map_values(
                                    |p: (usize, usize)| (p.0 as int, p.1 as int),
                                )[i] == (i, ids_pre[i]));
                                assert(font_oids.oids@[i] == oids_pre[i]);
                            } else {
                                assert(font_oids.oids@[i] == (fi, oid));
                            }
                        }
                        assert(font_oids.oids@.map_values(
                            |p: (usize, usize)| (p.0 as int, p.1 as int),
                        ) =~= Seq::new((fi + 1) as nat, |i: int| (i, ids_so_far[i])));
                    }
                },
                None => {
                    let mut fp: Vec<u8> = Vec::new();
                    push_str(&mut fp, "<< /Type /Font /Subtype /Type1 /BaseFont /");
                    push_string(&mut fp, &page_fonts[fi].name);
                    push_str(&mut fp, " /Encoding /");
                    let bn = page_fonts[fi].encoding.base.name();
                    push_string(&mut fp, &bn);
                    push_str(&mut fp, " >>\n");
                    proof {
                        assert(fp@ =~= font_payload(k));
                    }
                    let oid = self.append_object(&fp);
                    let newfont = dup_font(&page_fonts[fi]);
                    let ghost fonts_pre = self.font_object_ids@;
                    self.font_object_ids.push((newfont, oid));
                    let ghost oids_pre = font_oids.oids@;
                    let ghost ids_pre = ids_so_far;
                    font_oids.insert(fi, oid);
                    proof {
                        lemma_font_lookup_none(fs_cur, k);
                        assert(fonts_pre.map_values(
                            |p: (Font, usize)| (p.0.key(), p.1 as int),
                        ).len() == fonts_pre.len());
                        assert(fs_cur.len() == fonts_pre.len());
                        assert(self.font_object_ids@ == fonts_pre.push((newfont, oid)));
                        assert forall|i: int|
                            0 <= i < self.font_object_ids@.len() implies self@.fonts[i]
                            == fs_cur.push((k, oid as int))[i] by {
                            if i < fonts_pre.len() {
                                assert(self.font_object_ids@[i] == fonts_pre[i]);
                                assert(fonts_pre.map_values(
                                    |p: (Font, usize)| (p.0.key(), p.1 as int),
                                )[i] == fs_cur[i]);
                            } else {
                                assert(self.font_object_ids@[i] == (newfont, oid));
                            }
                        }
                        assert(self@.fonts =~= fs_cur.push((k, oid as int)));
                        let rest2 = fold_fonts(
                            fs_cur.push((k, next_cur)),
                            fonts_seq.subrange(fi + 1int, fonts_seq.len() as int),
                            next_cur + 1,
                        );
                        assert(oid as int == next_cur);
                        assert(rest.bytes == obj_wrap(next_cur, font_payload(k)) + rest2.bytes);
                        assert(rest.ids == seq![next_cur] + rest2.ids);
                        bytes_so_far = bytes_so_far + obj_wrap(next_cur, font_payload(k));
                        ids_so_far = ids_so_far.push(next_cur);
                        assert(full.bytes =~= bytes_so_far + rest2.bytes);
                        assert(full.ids =~= ids_so_far + rest2.ids);
                        assert(self@.out =~= out1 + bytes_so_far);
                        assert(oids_pre.map_values(
                            |p: (usize, usize)| (p.0 as int, p.1 as int),
                        ).len() == oids_pre.len());
                        assert(oids_pre.len() == fi);
                        assert(font_oids.oids@ == oids_pre.push((fi, oid)));
                        assert forall|i: int| 0 <= i < fi + 1 implies font_oids.oids@.map_values(
                            |p: (usize, usize)| (p.0 as int, p.1 as int),
                        )[i] == (i, ids_so_far[i]) by {
                            if i < fi {
                                assert(oids_pre.map_values(
                                    |p: (usize, usize)| (p.0 as int, p.1 as int),
                                )[i] == (i, ids_pre[i]));
                                assert(font_oids.oids@[i] == oids_pre[i]);
                            } else {
                                assert(font_oids.oids@[i] == (fi, oid));
                            }
                        }
                        assert(font_oids.oids@.map_values(
                            |p: (usize, usize)| (p.0 as int, p.1 as int),
                        ) =~= Seq::new((fi + 1) as nat, |i: int| (i, ids_so_far[i])));
                        assert forall|i: int, j: int|
                            0 <= i < j < self@.fonts.len() implies self@.fonts[i].0
                            != self@.fonts[j].0 by {
                            if j == self@.fonts.len() - 1 {
                                assert(self@.fonts[i] == fs_cur[i]);
                                assert(fs_cur[i].0 != k);
                            }
                        }
                    }
                },
            }
            fi = fi + 1;
        }
        proof {
            assert(fonts_seq.subrange(
                fonts_seq.len() as int,
                fonts_seq.len() as int,
            ) =~= Seq::<Font>::empty());
            let rest = fold_fonts(self@.fonts, Seq::<Font>::empty(), self@.offsets.len() as int);
            assert(rest.bytes =~= Seq::<u8>::empty());
            assert(rest.ids =~= Seq::<int>::empty());
            assert(full.fonts == self@.fonts);
            assert(full.next == self@.offsets.len() as int);
            assert(full.bytes =~= bytes_so_far);
            assert(full.ids =~= ids_so_far);
            assert(font_oids.oids@.map_values(|p: (usize, usize)| (p.0 as int, p.1 as int))
                =~= page_refs(full.ids));
        }
        font_oids
    }

    /// Write a page dictionary: parent, the page's font resources,
    /// its media box, and the reference to its content stream.
    #[verifier::rlimit(100)]
    fn write_page_dict(
        &mut self,
        content_oid: usize,
        width: UserSpace,
        height: UserSpace,
        font_oids: &NamedRefs,
    ) -> (page_oid: usize)
        requires
            table_ok(old(self)@.out, old(self)@.offsets),
        ensures
            table_ok(final(self)@.out, final(self)@.offsets),
            page_oid == old(self)@.offsets.len(),
            final(self)@.out == old(self)@.out + obj_wrap(
                page_oid as int,
                page_payload(
                    width.milli as int,
                    height.milli as int,
                    font_oids.oids@.map_values(|p: (usize, usize)| (p.0 as int, p.1 as int)),
                    content_oid as int,
                ),
            ),
            final(self)@.offsets =~= old(self)@.offsets.push(Some(old(self)@.out.len() as int)),
            final(self)@.pages == old(self)@.pages,
            final(self)@.fonts == old(self)@.fonts,
            final(self)@.outline == old(self)@.outline,
            final(self)@.info == old(self)@.info,
    {
        let mut pp: Vec<u8> = Vec::new();
        push_str(&mut pp, "<< /Type /Page\n   /Parent 2 0 R\n   /Resources << /Font << ");
        let ghost refs_view = font_oids.oids@.map_values(
            |p: (usize, usize)| (p.0 as int, p.1 as int),
        );
        let ghost pp_base = pp@;
        proof {
            assert(refs_view.subrange(0, 0) =~= Seq::<(int, int)>::empty());
            assert(pp@ =~= pp_base + font_refs_bytes(refs_view.subrange(0, 0)));
        }
        let mut ri: usize = 0;
        while ri < font_oids.oids.len()
            invariant
                ri <= font_oids.oids@.len(),
                refs_view == font_oids.oids@.map_values(
                    |p: (usize, usize)| (p.0 as int, p.1 as int),
                ),
                pp@ == pp_base + font_refs_bytes(refs_view.subrange(0, ri as int)),
            decreases font_oids.oids@.len() - ri,
        {
            let (n, oid) = font_oids.oids[ri];
            push_str(&mut pp, "/F");
            push_dec_usize(&mut pp, n);
            push_str(&mut pp, " ");
            push_dec_usize(&mut pp, oid);
            push_str(&mut pp, " 0 R ");
            proof {
                let pre = refs_view.subrange(0, ri as int);
                let cur = refs_view.subrange(0, ri + 1int);
                assert(cur.drop_last() =~= pre);
                assert(cur.last() == refs_view[ri as int]);
                assert(refs_view[ri as int] == (n as int, oid as int));
                assert(pp@ =~= pp_base + font_refs_bytes(cur));
            }
            ri = ri + 1;
        }
        proof {
            assert(refs_view.subrange(0, refs_view.len() as int) =~= refs_view);
        }
        push_str(&mut pp, ">> >>\n   /MediaBox [0 0 ");
        crate::emit::push_milli(&mut pp, width.milli);
        push_str(&mut pp, " ");
        crate::emit::push_milli(&mut pp, height.milli);
        push_str(&mut pp, "]\n   /Contents ");
        push_dec_usize(&mut pp, content_oid);
        push_str(&mut pp, " 0 R\n>>\n");
        proof {
            assert(pp@ =~= page_payload(
                width.milli as int,
                height.milli as int,
                refs_view,
                content_oid as int,
            ));
        }
        self.append_object(&pp)
    }

    /// Take a page's outline items into the document outline, each
    /// stamped with the page's now-known object id.
    fn adopt_outline(&mut self, items: &Vec<OutlineItem>, page_oid: usize)
        ensures
            final(self)@.outline =~= old(self)@.outline + items@.map_values(
                |o: OutlineItem| (o.title@, page_oid as int),
            ),
            final(self)@.out == old(self)@.out,
            final(self)@.offsets == old(self)@.offsets,
            final(self)@.pages == old(self)@.pages,
            final(self)@.fonts == old(self)@.fonts,
            final(self)@.info == old(self)@.info,
    {
        let ghost m2 = self@;
        let mut oi: usize = 0;
        proof {
            assert(items@.subrange(0, 0int).map_values(
                |o: OutlineItem| (o.title@, page_oid as int),
            ) =~= Seq::<(Seq<char>, int)>::empty());
            assert(self@.outline =~= m2.outline + items@.subrange(0, 0int).map_values(
                |o: OutlineItem| (o.title@, page_oid as int),
            ));
        }
        while oi < items.len()
            invariant
                oi <= items@.len(),
                self@.outline =~= m2.outline + items@.subrange(0, oi as int).map_values(
                    |o: OutlineItem| (o.title@, page_oid as int),
                ),
                self@.out == m2.out,
                self@.offsets == m2.offsets,
                self@.pages == m2.pages,
                self@.fonts == m2.fonts,
                self@.info == m2.info,
            decreases items@.len() - oi,
        {
            let title = items[oi].title.as_str().to_owned();
            let ghost outline_pre = self.outline@;
            let ghost item_title = title@;
            self.outline.push(OutlineItem { title, page: page_oid });
            proof {
                let pre = items@.subrange(0, oi as int);
                let cur = items@.subrange(0, oi + 1int);
                assert(cur.drop_last() =~= pre);
                assert(cur.last() == items@[oi as int]);
                assert(outline_pre.map_values(|o: OutlineItem| (o.title@, o.page as int)).len()
                    == outline_pre.len());
                assert(outline_pre.len() == m2.outline.len() + oi);
                assert(self.outline@.len() == outline_pre.len() + 1);
                assert forall|i: int|
                    0 <= i < self.outline@.len() implies self@.outline[i] == (m2.outline
                    + cur.map_values(|o: OutlineItem| (o.title@, page_oid as int)))[i] by {
                    if i < outline_pre.len() {
                        assert(self.outline@[i] == outline_pre[i]);
                        assert(outline_pre.map_values(|o: OutlineItem| (o.title@, o.page as int))[i]
                            == (m2.outline + pre.map_values(
                            |o: OutlineItem| (o.title@, page_oid as int),
                        ))[i]);
                    } else {
                        assert(self.outline@[i].title@ == item_title);
                        assert(item_title == items@[oi as int].title@);
                        assert(cur.map_values(|o: OutlineItem| (o.title@, page_oid as int))[i
                            - m2.outline.len()] == (cur[i - m2.outline.len()].title@,
                        page_oid as int));
                    }
                }
                assert(self@.outline =~= m2.outline + cur.map_values(
                    |o: OutlineItem| (o.title@, page_oid as int),
                ));
            }
            oi = oi + 1;
        }
        proof {
            assert(items@.subrange(0, items@.len() as int) =~= items@);
        }
    }

    /// Create a new page in the PDF document.
    ///
    /// The page will be `width` × `height` points large, and its
    /// content is the finished canvas. The content stream is written
    /// with a `/Length` reference that names the very next object id;
    /// once the stream's bytes are down, that id is allocated and
    /// proven to hold the stream's exact length. Each font the page
    /// used is resolved to a font object, written only the first time
    /// its identity appears in the document; the page dictionary then
    /// maps the page's short font names to those objects. The page's
    /// outline items join the document outline stamped with this
    /// page's object id.
    #[verifier::rlimit(100)]
    pub fn render_page(&mut self, width: UserSpace, height: UserSpace, canvas: canvas::Canvas)
        requires
            wf(old(self)@),
        ensures
            wf(final(self)@),
            final(self)@.out == old(self)@.out + render_emission(
                old(self)@,
                canvas,
                width.milli as int,
                height.milli as int,
            ),
            final(self)@.pages =~= old(self)@.pages.push(render_fold(old(self)@, canvas).next),
            final(self)@.fonts == render_fold(old(self)@, canvas).fonts,
            final(self)@.outline =~= old(self)@.outline + canvas.outline_items@.map_values(
                |o: OutlineItem| (o.title@, render_fold(old(self)@, canvas).next),
            ),
            final(self)@.info == old(self)@.info,
            final(self)@.offsets.len() == render_fold(old(self)@, canvas).next + 1,
            forall|i: int|
                0 <= i < old(self)@.offsets.len() ==> final(self)@.offsets[i] == old(self)@.offsets[i],
    {
        let ghost m0 = self@;
        let content_id = self.object_offsets.len();
        let mut payload: Vec<u8> = Vec::new();
        push_str(&mut payload, "<< /Length ");
        push_dec_u128(&mut payload, content_id as u128 + 1);
        push_str(&mut payload, " 0 R >>\nstream\n");
        push_str(&mut payload, "/DeviceRGB cs /DeviceRGB CS\n");
        push_bytes(&mut payload, &canvas.bytes);
        push_str(&mut payload, "endstream\n");
        proof {
            assert(payload@ =~= content_stream_payload(content_id as int + 1, canvas.bytes@));
        }
        let first_id = self.append_object(&payload);
        proof {
            assert(first_id == content_id);
        }
        let mut lp: Vec<u8> = Vec::new();
        push_dec_u128(&mut lp, 28u128 + canvas.bytes.len() as u128);
        push_str(&mut lp, "\n");
        proof {
            assert(lp@ =~= length_payload(28 + canvas.bytes@.len() as int));
        }
        let length_id = self.append_object(&lp);
        proof {
            // the /Length forward reference resolves to exactly the
            // next allocated object
            assert(length_id as int == content_id as int + 1);
        }
        let ghost m1 = self@;
        let ghost full = render_fold(m0, canvas);
        proof {
            assert(m1.fonts == m0.fonts);
            assert(m1.offsets.len() == m0.offsets.len() + 2);
            assert(full == fold_fonts(m1.fonts, canvas.fonts@, m1.offsets.len() as int));
        }
        let font_oids = self.write_page_fonts(&canvas.fonts);
        let page_oid = self.write_page_dict(content_id, width, height, &font_oids);
        proof {
            assert(page_oid as int == full.next);
        }
        let ghost pages_pre = self.page_object_ids@;
        self.page_object_ids.push(page_oid);
        proof {
            assert(self.page_object_ids@ == pages_pre.push(page_oid));
            assert(pages_pre.map_values(|p: usize| p as int).len() == pages_pre.len());
            assert(self@.pages =~= m0.pages.push(full.next));
        }
        self.adopt_outline(&canvas.outline_items, page_oid);
        proof {
            assert(canvas.outline_items@.map_values(|o: OutlineItem| (o.title@, page_oid as int))
                =~= canvas.outline_items@.map_values(
                |o: OutlineItem| (o.title@, render_fold(m0, canvas).next),
            ));
            assert(self@.outline =~= m0.outline + canvas.outline_items@.map_values(
                |o: OutlineItem| (o.title@, render_fold(m0, canvas).next),
            ));
            assert(self@.out =~= m0.out + render_emission(
                m0,
                canvas,
                width.milli as int,
                height.milli as int,
            ));
            assert(self@.offsets.len() == full.next + 1);
            lemma_fold_fonts_bounds(m1.fonts, canvas.fonts@, m1.offsets.len() as int);
            assert(wf(self@));
        }
    }
}



/// A document's output and object table, as the closing steps
/// transform them.
pub ghost struct DocState {
    /// The bytes written so far.
    pub out: Seq<u8>,
    /// The object table so far.
    pub offsets: Seq<Option<int>>,
}

/// Allocate the next object id and write a whole object.
pub open spec fn sm_append(s: DocState, payload: Seq<u8>) -> DocState {
    DocState {
        out: s.out + obj_wrap(s.offsets.len() as int, payload),
        offsets: s.offsets.push(Some(s.out.len() as int)),
    }
}

/// Write a whole object under an id reserved earlier.
pub open spec fn sm_write_at(s: DocState, id: int, payload: Seq<u8>) -> DocState {
    DocState {
        out: s.out + obj_wrap(id, payload),
        offsets: s.offsets.update(id, Some(s.out.len() as int)),
    }
}

/// The page references of the pages tree, in emission order.
pub open spec fn kids_bytes(pages: Seq<int>) -> Seq<u8>
    decreases pages.len(),
{
    if pages.len() == 0 {
        Seq::<u8>::empty()
    } else {
        kids_bytes(pages.drop_last()) + dec_bytes(pages.last() as nat) + lit_bytes(" 0 R ")
    }
}

/// The body of the pages-tree object: the page count and the page
/// references in emission order.
pub open spec fn pages_payload(pages: Seq<int>) -> Seq<u8> {
    lit_bytes("<< /Type /Pages\n   /Count ") + dec_bytes(pages.len()) + lit_bytes(
        "\n   /Kids [ ",
    ) + kids_bytes(pages) + lit_bytes("]\n>>\n")
}

/// Whether any metadata field is set; only then is an info object
/// written.
pub open spec fn info_any(info: Seq<Option<Seq<char>>>) -> bool {
    exists|i: int| 0 <= i < info.len() && (#[trigger] info[i]) is Some
}

/// One line of the info dictionary: nothing when the field is unset.
pub open spec fn info_line(info: Seq<Option<Seq<char>>>, i: int) -> Seq<u8> {
    match info[i] {
        Some(v) => lit_bytes(" /") + meta_name_bytes(i) + lit_bytes(" (") + crate::emit::str_bytes(
            v,
        ) + lit_bytes(")\n"),
        None => Seq::<u8>::empty(),
    }
}

/// The creation and modification timestamps, when a clock reading is
/// available.
pub open spec fn ts_part(ts: Option<Seq<u8>>) -> Seq<u8> {
    match ts {
        Some(t) => lit_bytes(" /CreationDate (D:") + t + lit_bytes(")\n /ModDate (D:") + t
            + lit_bytes(")"),
        None => Seq::<u8>::empty(),
    }
}

/// The body of the info object: one line per set metadata field, in
/// alphabetical key order, then the timestamps.
pub open spec fn info_payload(info: Seq<Option<Seq<char>>>, ts: Option<Seq<u8>>) -> Seq<u8> {
    lit_bytes("<<") + info_line(info, 0) + info_line(info, 1) + info_line(info, 2) + info_line(
        info,
        3,
    ) + info_line(info, 4) + info_line(info, 5) + ts_part(ts) + lit_bytes(">>\n")
}

/// The body of the outline root: the two ends of the sibling chain
/// and the number of items.
pub open spec fn outline_root_payload(first: int, last: int, count: int) -> Seq<u8> {
    lit_bytes("<< /Type /Outlines\n   /First ") + dec_bytes(first as nat) + lit_bytes(
        " 0 R\n   /Last ",
    ) + dec_bytes(last as nat) + lit_bytes(" 0 R\n   /Count ") + dec_bytes(count as nat)
        + lit_bytes("\n>>\n")
}

/// The sibling references of the `k`-th outline item: the neighboring
/// items' ids, which are known in advance because the items take
/// consecutive ids after the reserved parent.
pub open spec fn outline_prev(parent: int, k: int) -> Option<nat> {
    if k == 0 {
        None
    } else {
        Some((parent + k) as nat)
    }
}

/// The forward sibling reference of the `k`-th of `n` outline items.
pub open spec fn outline_next(parent: int, k: int, n: int) -> Option<nat> {
    if k + 1 == n {
        None
    } else {
        Some((parent + k + 2) as nat)
    }
}

/// Write the outline items from the `k`-th on: each becomes its own
/// object carrying its sibling references.
pub open spec fn outline_sm(
    s: DocState,
    items: Seq<(Seq<char>, int)>,
    parent: int,
    k: int,
) -> DocState
    decreases items.len() - k,
{
    if k < 0 || k >= items.len() {
        s
    } else {
        outline_sm(
            sm_append(
                s,
                outline_item_bytes(
                    items[k].0,
                    items[k].1 as nat,
                    parent as nat,
                    outline_prev(parent, k),
                    outline_next(parent, k, items.len() as int),
                ),
            ),
            items,
            parent,
            k + 1,
        )
    }
}

/// The whole outline emission: reserve the parent id, write each item
/// with its sibling references, then write the parent.
pub open spec fn outline_emit(s: DocState, items: Seq<(Seq<char>, int)>) -> DocState {
    let parent = s.offsets.len() as int;
    let sr = DocState { out: s.out, offsets: s.offsets.push(None) };
    let si = outline_sm(sr, items, parent, 0);
    sm_write_at(
        si,
        parent,
        outline_root_payload(parent + 1, parent + items.len(), items.len() as int),
    )
}

/// The body of the catalog: the pages tree and, when bookmarks exist,
/// the outline root.
pub open spec fn catalog_payload(outlines: Option<int>) -> Seq<u8> {
    lit_bytes("<< /Type /Catalog\n   /Pages 2 0 R\n") + (match outlines {
        Some(o) => lit_bytes("/Outlines ") + dec_bytes(o as nat) + lit_bytes(" 0 R\n"),
        None => Seq::<u8>::empty(),
    }) + lit_bytes(">>\n")
}

/// The cross-reference lines for the objects from id `i` on: each a
/// ten-digit offset and the in-use marker.
pub open spec fn xref_lines(offsets: Seq<Option<int>>, i: int) -> Seq<u8>
    decreases offsets.len() - i,
{
    if i < 1 || i >= offsets.len() {
        Seq::<u8>::empty()
    } else {
        crate::emit::pad10_bytes(
            match offsets[i] {
                Some(o) => o as nat,
                None => 0,
            },
        ) + lit_bytes(" 00000 n\n") + xref_lines(offsets, i + 1)
    }
}

/// The cross-reference section: the subsection header with the total
/// object count, the mandatory free entry for object 0, then one line
/// per real object in id order.
pub open spec fn xref_section(offsets: Seq<Option<int>>) -> Seq<u8> {
    lit_bytes("xref\n0 ") + dec_bytes(offsets.len()) + lit_bytes("\n0000000000 65535 f\n")
        + xref_lines(offsets, 1)
}

/// The trailer: the dictionary naming the size, the catalog and the
/// optional info object, then the xref position and the end marker.
pub open spec fn trailer_bytes(size: int, info_id: Option<int>, startxref: int) -> Seq<u8> {
    lit_bytes("trailer\n<< /Size ") + dec_bytes(size as nat) + lit_bytes("\n   /Root 1 0 R\n") + (
    match info_id {
        Some(i) => lit_bytes("   /Info ") + dec_bytes(i as nat) + lit_bytes(" 0 R\n"),
        None => Seq::<u8>::empty(),
    }) + lit_bytes(">>\nstartxref\n") + dec_bytes(startxref as nat) + lit_bytes("\n%%EOF\n")
}

/// The object-writing part of closing a document: the pages tree, the
/// optional info object, the optional outline, and the catalog.
pub open spec fn finish_state(m: PdfView, ts: Option<Seq<u8>>) -> DocState {
    let s0 = DocState { out: m.out, offsets: m.offsets };
    let s1 = sm_write_at(s0, 2, pages_payload(m.pages));
    let s2 = if info_any(m.info) {
        sm_append(s1, info_payload(m.info, ts))
    } else {
        s1
    };
    let s3 = if m.outline.len() > 0 {
        outline_emit(s2, m.outline)
    } else {
        s2
    };
    sm_write_at(
        s3,
        1,
        catalog_payload(
            if m.outline.len() > 0 {
                Some(s2.offsets.len() as int)
            } else {
                None
            },
        ),
    )
}

/// The id of the info object a closing document writes, if any.
pub open spec fn finish_info_id(m: PdfView) -> Option<int> {
    if info_any(m.info) {
        Some(m.offsets.len() as int)
    } else {
        None
    }
}

/// The complete file a document closes into: every remaining object,
/// then the cross-reference section and the trailer.
pub open spec fn finish_bytes(m: PdfView, ts: Option<Seq<u8>>) -> Seq<u8> {
    let s = finish_state(m, ts);
    s.out + xref_section(s.offsets) + trailer_bytes(
        s.offsets.len() as int,
        finish_info_id(m),
        s.out.len() as int,
    )
}

impl Pdf {
    /// Write the outline chain, if any outline items were collected:
    /// one parent object id is reserved up front, each item is written
    /// as its own object carrying its sibling references, and the
    /// parent is written last. The written items leave the pending
    /// state. Returns the outline root's id, or `None` when there are
    /// no items.
    #[verifier::rlimit(100)]
    fn write_outline(&mut self) -> (r: Option<usize>)
        requires
            table_ok(old(self)@.out, old(self)@.offsets),
            15 * (old(self)@.offsets.len() + 1) <= old(self)@.out.len() + 45,
        ensures
            table_ok(final(self)@.out, final(self)@.offsets),
            old(self)@.outline.len() == 0 ==> r is None && final(self)@ == old(self)@,
            old(self)@.outline.len() > 0 ==> {
                let after = outline_emit(
                    DocState { out: old(self)@.out, offsets: old(self)@.offsets },
                    old(self)@.outline,
                );
                &&& r == Some(old(self)@.offsets.len() as usize)
                &&& final(self)@.out == after.out
                &&& final(self)@.offsets == after.offsets
                &&& final(self)@.outline =~= Seq::<(Seq<char>, int)>::empty()
            },
            final(self)@.pages == old(self)@.pages,
            final(self)@.fonts == old(self)@.fonts,
            final(self)@.info == old(self)@.info,
    {
        if self.outline.len() == 0 {
            return None;
        }
        let ghost m = self@;
        let parent = self.object_offsets.len();
        self.object_offsets.push(None);
        let mut items: Vec<OutlineItem> = Vec::new();
        core::mem::swap(&mut items, &mut self.outline);
        let ghost items_seq = items@.map_values(|o: OutlineItem| (o.title@, o.page as int));
        let ghost sr = DocState {
            out: m.out,
            offsets: m.offsets.push(None),
        };
        proof {
            assert(items_seq == m.outline);
            assert(self@.offsets =~= m.offsets.push(None));
            assert(self@.outline =~= Seq::<(Seq<char>, int)>::empty());
            assert(outline_sm(sr, items_seq, parent as int, 0).out == outline_sm(
                sr,
                items_seq,
                parent as int,
                0,
            ).out);
        }
        let count = items.len();
        let mut k: usize = 0;
        while k < count
            invariant
                k <= count,
                count == items@.len(),
                items_seq == items@.map_values(|o: OutlineItem| (o.title@, o.page as int)),
                items_seq.len() == count,
                table_ok(self@.out, self@.offsets),
                self@.offsets.len() == parent + 1 + k,
                parent < self@.offsets.len(),
                self@.offsets[parent as int] is None,
                outline_sm(sr, items_seq, parent as int, 0) == outline_sm(
                    (DocState { out: self@.out, offsets: self@.offsets }),
                    items_seq,
                    parent as int,
                    k as int,
                ),
                self@.outline =~= Seq::<(Seq<char>, int)>::empty(),
                self@.pages == m.pages,
                self@.fonts == m.fonts,
                self@.info == m.info,
            decreases count - k,
        {
            let id = self.object_offsets.len();
            let prev: Option<usize> = if k == 0 {
                None
            } else {
                Some(id - 1)
            };
            let out_len = self.out.len();
            proof {
                assert(self@.offsets.len() == self.object_offsets@.len());
                assert(15 * (id as int) <= out_len + 45);
                assert(id < usize::MAX);
            }
            let next: Option<usize> = if k + 1 == count {
                None
            } else {
                Some(id + 1)
            };
            let mut op: Vec<u8> = Vec::new();
            items[k].write_dictionary(&mut op, parent, prev, next);
            proof {
                assert(items@[k as int].title@ == items_seq[k as int].0);
                assert(items@[k as int].page as int == items_seq[k as int].1);
                assert((match prev {
                    Some(p) => Some(p as nat),
                    None => None,
                }) == outline_prev(parent as int, k as int));
                assert((match next {
                    Some(nx) => Some(nx as nat),
                    None => None,
                }) == outline_next(parent as int, k as int, count as int));
                assert(op@ == outline_item_bytes(
                    items_seq[k as int].0,
                    items_seq[k as int].1 as nat,
                    parent as nat,
                    outline_prev(parent as int, k as int),
                    outline_next(parent as int, k as int, count as int),
                ));
            }
            let ghost scur = DocState { out: self@.out, offsets: self@.offsets };
            let got = self.append_object(&op);
            proof {
                let item_bytes = outline_item_bytes(
                    items_seq[k as int].0,
                    items_seq[k as int].1 as nat,
                    parent as nat,
                    outline_prev(parent as int, k as int),
                    outline_next(parent as int, k as int, count as int),
                );
                assert(outline_sm(scur, items_seq, parent as int, k as int) == outline_sm(
                    sm_append(scur, item_bytes),
                    items_seq,
                    parent as int,
                    k + 1int,
                ));
                assert(self@.offsets =~= sm_append(scur, item_bytes).offsets);
                assert(sm_append(scur, item_bytes) == (DocState {
                    out: self@.out,
                    offsets: self@.offsets,
                }));
            }
            k = k + 1;
        }
        let cur_len = self.object_offsets.len();
        proof {
            assert(self@.offsets.len() == self.object_offsets@.len());
            assert(cur_len == parent + 1 + count);
        }
        let first = parent + 1;
        let last = cur_len - 1;
        let mut rp: Vec<u8> = Vec::new();
        push_str(&mut rp, "<< /Type /Outlines\n   /First ");
        push_dec_usize(&mut rp, first);
        push_str(&mut rp, " 0 R\n   /Last ");
        push_dec_usize(&mut rp, last);
        push_str(&mut rp, " 0 R\n   /Count ");
        push_dec_usize(&mut rp, count);
        push_str(&mut rp, "\n>>\n");
        proof {
            assert(last as int == parent + count);
            assert(rp@ =~= outline_root_payload(
                parent as int + 1,
                parent as int + count as int,
                count as int,
            ));
        }
        proof {
            assert(outline_sm(
                (DocState { out: self@.out, offsets: self@.offsets }),
                items_seq,
                parent as int,
                count as int,
            ) == (DocState { out: self@.out, offsets: self@.offsets }));
        }
        self.write_object_at(parent, &rp);
        proof {
            assert(self@.out == outline_emit(
                (DocState { out: m.out, offsets: m.offsets }),
                m.outline,
            ).out);
            assert(self@.offsets =~= outline_emit(
                (DocState { out: m.out, offsets: m.offsets }),
                m.outline,
            ).offsets);
        }
        Some(parent)
    }
}




/// The body of the pages-tree object for the given page ids.
fn build_pages_payload(pages: &Vec<usize>) -> (r: Vec<u8>)
    ensures
        r@ == pages_payload(pages@.map_values(|p: usize| p as int)),
{
    let ghost pages_view = pages@.map_values(|p: usize| p as int);
    let mut pp: Vec<u8> = Vec::new();
    push_str(&mut pp, "<< /Type /Pages\n   /Count ");
    push_dec_usize(&mut pp, pages.len());
    push_str(&mut pp, "\n   /Kids [ ");
    let ghost pp_base = pp@;
    proof {
        assert(pages_view.subrange(0, 0) =~= Seq::<int>::empty());
        assert(pp@ =~= pp_base + kids_bytes(pages_view.subrange(0, 0)));
    }
    let mut pi: usize = 0;
    while pi < pages.len()
        invariant
            pi <= pages@.len(),
            pages_view == pages@.map_values(|p: usize| p as int),
            pages_view.len() == pages@.len(),
            pp@ == pp_base + kids_bytes(pages_view.subrange(0, pi as int)),
        decreases pages@.len() - pi,
    {
        let pid = pages[pi];
        push_dec_usize(&mut pp, pid);
        push_str(&mut pp, " 0 R ");
        proof {
            let pre = pages_view.subrange(0, pi as int);
            let cur = pages_view.subrange(0, pi + 1int);
            assert(cur.drop_last() =~= pre);
            assert(cur.last() == pages_view[pi as int]);
            assert(pages_view[pi as int] == pid as int);
            assert(pp@ =~= pp_base + kids_bytes(cur));
        }
        pi = pi + 1;
    }
    proof {
        assert(pages_view.subrange(0, pages_view.len() as int) =~= pages_view);
    }
    push_str(&mut pp, "]\n>>\n");
    proof {
        assert(pp@ =~= pages_payload(pages_view));
    }
    pp
}

/// The metadata fields as the info model sees them.
pub open spec fn info_view(info: Seq<Option<String>>) -> Seq<Option<Seq<char>>> {
    info.map_values(
        |o: Option<String>|
            match o {
                Some(s) => Some(s@),
                None => None,
            },
    )
}

/// Whether any metadata field is set.
fn info_nonempty(info: &Vec<Option<String>>) -> (b: bool)
    requires
        info@.len() == 6,
    ensures
        b == info_any(info_view(info@)),
{
    let b = info[0].is_some() || info[1].is_some() || info[2].is_some() || info[3].is_some()
        || info[4].is_some() || info[5].is_some();
    proof {
        let v = info_view(info@);
        assert(v.len() == 6);
        if b {
            if info@[0] is Some {
                assert(v[0] is Some);
            } else if info@[1] is Some {
                assert(v[1] is Some);
            } else if info@[2] is Some {
                assert(v[2] is Some);
            } else if info@[3] is Some {
                assert(v[3] is Some);
            } else if info@[4] is Some {
                assert(v[4] is Some);
            } else {
                assert(info@[5] is Some);
                assert(v[5] is Some);
            }
            assert(info_any(v));
        } else {
            assert forall|i: int| 0 <= i < v.len() implies !((#[trigger] v[i]) is Some) by {
                if i == 0 {
                } else if i == 1 {
                } else if i == 2 {
                } else if i == 3 {
                } else if i == 4 {
                } else {
                    assert(i == 5);
                }
            }
        }
    }
    b
}

/// The body of the info object for the given fields and clock
/// reading.
#[verifier::rlimit(100)]
fn build_info_payload(info: &Vec<Option<String>>, ts: &Option<Vec<u8>>) -> (r: Vec<u8>)
    requires
        info@.len() == 6,
    ensures
        r@ == info_payload(
            info_view(info@),
            match ts {
                Some(t) => Some(t@),
                None => None,
            },
        ),
{
    let ghost v = info_view(info@);
    let mut ip: Vec<u8> = Vec::new();
    push_str(&mut ip, "<<");
    let ghost mut acc: Seq<u8> = lit_bytes("<<");
    push_info_line(&mut ip, &info[0], "Author");
    proof {
        assert(v[0] == (match info@[0] {
            Some(t) => Some(t@),
            None => None,
        }));
        acc = acc + info_line(v, 0);
        assert(ip@ =~= acc);
    }
    push_info_line(&mut ip, &info[1], "Creator");
    proof {
        assert(v[1] == (match info@[1] {
            Some(t) => Some(t@),
            None => None,
        }));
        acc = acc + info_line(v, 1);
        assert(ip@ =~= acc);
    }
    push_info_line(&mut ip, &info[2], "Keywords");
    proof {
        assert(v[2] == (match info@[2] {
            Some(t) => Some(t@),
            None => None,
        }));
        acc = acc + info_line(v, 2);
        assert(ip@ =~= acc);
    }
    push_info_line(&mut ip, &info[3], "Producer");
    proof {
        assert(v[3] == (match info@[3] {
            Some(t) => Some(t@),
            None => None,
        }));
        acc = acc + info_line(v, 3);
        assert(ip@ =~= acc);
    }
    push_info_line(&mut ip, &info[4], "Subject");
    proof {
        assert(v[4] == (match info@[4] {
            Some(t) => Some(t@),
            None => None,
        }));
        acc = acc + info_line(v, 4);
        assert(ip@ =~= acc);
    }
    push_info_line(&mut ip, &info[5], "Title");
    proof {
        assert(v[5] == (match info@[5] {
            Some(t) => Some(t@),
            None => None,
        }));
        acc = acc + info_line(v, 5);
        assert(ip@ =~= acc);
    }
    match ts {
        Some(t) => {
            push_str(&mut ip, " /CreationDate (D:");
            push_bytes(&mut ip, t);
            push_str(&mut ip, ")\n /ModDate (D:");
            push_bytes(&mut ip, t);
            push_str(&mut ip, ")");
        },
        None => {},
    }
    proof {
        acc = acc + ts_part(
            match ts {
                Some(t) => Some(t@),
                None => None,
            },
        );
        assert(ip@ =~= acc);
    }
    push_str(&mut ip, ">>\n");
    proof {
        assert(ip@ =~= info_payload(
            v,
            match ts {
                Some(t) => Some(t@),
                None => None,
            },
        ));
    }
    ip
}

/// Append one line of the info dictionary, when the field is set.
fn push_info_line(ip: &mut Vec<u8>, slot: &Option<String>, label: &str)
    ensures
        final(ip)@ == old(ip)@ + (match slot {
            Some(v) => lit_bytes(" /") + lit_bytes(label) + lit_bytes(" (")
                + crate::emit::str_bytes(v@) + lit_bytes(")\n"),
            None => Seq::<u8>::empty(),
        }),
{
    match slot {
        Some(v) => {
            push_str(ip, " /");
            push_str(ip, label);
            push_str(ip, " (");
            push_string(ip, v);
            push_str(ip, ")\n");
            assert(final(ip)@ =~= old(ip)@ + (lit_bytes(" /") + lit_bytes(label) + lit_bytes(" (")
                + crate::emit::str_bytes(v@) + lit_bytes(")\n")));
        },
        None => {
            assert(final(ip)@ =~= old(ip)@ + Seq::<u8>::empty());
        },
    }
}

/// The body of the catalog for the given outline root, if any.
fn build_catalog_payload(outlines_id: Option<usize>) -> (r: Vec<u8>)
    ensures
        r@ == catalog_payload(
            match outlines_id {
                Some(o) => Some(o as int),
                None => None,
            },
        ),
{
    let mut cp: Vec<u8> = Vec::new();
    push_str(&mut cp, "<< /Type /Catalog\n   /Pages 2 0 R\n");
    match outlines_id {
        Some(o) => {
            push_str(&mut cp, "/Outlines ");
            push_dec_usize(&mut cp, o);
            push_str(&mut cp, " 0 R\n");
        },
        None => {},
    }
    push_str(&mut cp, ">>\n");
    proof {
        assert(cp@ =~= catalog_payload(
            match outlines_id {
                Some(o) => Some(o as int),
                None => None,
            },
        ));
    }
    cp
}


/// Writing the outline items only appends objects: entries already in
/// the table keep their offsets, and every new entry is written.
pub proof fn lemma_outline_sm_prefix(s: DocState, items: Seq<(Seq<char>, int)>, parent: int, k: int)
    ensures
        ({
            let r = outline_sm(s, items, parent, k);
            &&& r.offsets.len() == if 0 <= k <= items.len() {
                s.offsets.len() + items.len() - k
            } else {
                s.offsets.len() as int
            }
            &&& forall|i: int| 0 <= i < s.offsets.len() ==> r.offsets[i] == s.offsets[i]
            &&& forall|i: int|
                s.offsets.len() <= i < r.offsets.len() ==> (#[trigger] r.offsets[i]) is Some
        }),
    decreases items.len() - k,
{
    if 0 <= k < items.len() {
        let s2 = sm_append(
            s,
            outline_item_bytes(
                items[k].0,
                items[k].1 as nat,
                parent as nat,
                outline_prev(parent, k),
                outline_next(parent, k, items.len() as int),
            ),
        );
        lemma_outline_sm_prefix(s2, items, parent, k + 1);
    }
}

/// The whole outline emission preserves every entry already in the
/// table except the reserved parent slot, which it writes.
pub proof fn lemma_outline_emit_prefix(s: DocState, items: Seq<(Seq<char>, int)>)
    ensures
        ({
            let r = outline_emit(s, items);
            &&& r.offsets.len() == s.offsets.len() + 1 + items.len()
            &&& forall|i: int| 0 <= i < s.offsets.len() ==> r.offsets[i] == s.offsets[i]
            &&& forall|i: int|
                s.offsets.len() <= i < r.offsets.len() ==> (#[trigger] r.offsets[i]) is Some
        }),
{
    let parent = s.offsets.len() as int;
    let sr = DocState { out: s.out, offsets: s.offsets.push(None) };
    lemma_outline_sm_prefix(sr, items, parent, 0);
    let si = outline_sm(sr, items, parent, 0);
    let r = outline_emit(s, items);
    assert(r.offsets =~= si.offsets.update(parent, Some(si.out.len() as int)));
    assert forall|i: int|
        s.offsets.len() <= i < r.offsets.len() implies (#[trigger] r.offsets[i]) is Some by {
        if i != parent {
            assert(sr.offsets.len() <= i < si.offsets.len());
            assert(si.offsets[i] is Some);
        }
    }
}

impl Pdf {
    /// Append the cross-reference section and the trailer: the xref
    /// position is the output length before this call, and every
    /// object's recorded offset becomes one fixed-width line.
    #[verifier::rlimit(100)]
    fn write_xref_and_trailer(&mut self, info_id: Option<usize>)
        requires
            old(self)@.offsets.len() >= 1,
        ensures
            final(self)@.out == old(self)@.out + xref_section(old(self)@.offsets) + trailer_bytes(
                old(self)@.offsets.len() as int,
                match info_id {
                    Some(i) => Some(i as int),
                    None => None,
                },
                old(self)@.out.len() as int,
            ),
    {
        let ghost offs = self@.offsets;
        let startxref = self.out.len();
        let n = self.object_offsets.len();
        proof {
            assert(n == offs.len());
            assert(startxref == self@.out.len());
        }
        push_str(&mut self.out, "xref\n0 ");
        push_dec_usize(&mut self.out, n);
        push_str(&mut self.out, "\n0000000000 65535 f\n");
        let ghost xbase = self.out@;
        let ghost table = self.object_offsets@;
        let mut id: usize = 1;
        while id < n
            invariant
                1 <= id <= n,
                n == self.object_offsets@.len(),
                self.object_offsets@ == table,
                offs == self@.offsets,
                xbase + xref_lines(offs, 1) == self.out@ + xref_lines(offs, id as int),
            decreases n - id,
        {
            let ghost out_pre = self.out@;
            let entry = self.object_offsets[id];
            match entry {
                Some(off) => crate::emit::push_pad10(&mut self.out, off),
                None => crate::emit::push_pad10(&mut self.out, 0),
            }
            push_str(&mut self.out, " 00000 n\n");
            proof {
                let line = crate::emit::pad10_bytes(
                    match offs[id as int] {
                        Some(o) => o as nat,
                        None => 0,
                    },
                ) + lit_bytes(" 00000 n\n");
                assert(self.out@ =~= out_pre + line);
                assert(xref_lines(offs, id as int) == line + xref_lines(offs, id + 1int));
                assert(out_pre + (line + xref_lines(offs, id + 1int)) =~= (out_pre + line)
                    + xref_lines(offs, id + 1int));
            }
            id = id + 1;
        }
        proof {
            assert(xref_lines(offs, n as int) =~= Seq::<u8>::empty());
            assert(self.out@ + Seq::<u8>::empty() =~= self.out@);
            assert(self.out@ =~= xbase + xref_lines(offs, 1));
            assert(self.out@ =~= old(self)@.out + xref_section(offs));
        }
        push_str(&mut self.out, "trailer\n<< /Size ");
        push_dec_usize(&mut self.out, n);
        push_str(&mut self.out, "\n   /Root 1 0 R\n");
        match info_id {
            Some(i) => {
                push_str(&mut self.out, "   /Info ");
                push_dec_usize(&mut self.out, i);
                push_str(&mut self.out, " 0 R\n");
            },
            None => {},
        }
        push_str(&mut self.out, ">>\nstartxref\n");
        push_dec_usize(&mut self.out, startxref);
        push_str(&mut self.out, "\n%%EOF\n");
        proof {
            assert(self.out@ =~= old(self)@.out + xref_section(offs) + trailer_bytes(
                offs.len() as int,
                match info_id {
                    Some(i) => Some(i as int),
                    None => None,
                },
                old(self)@.out.len() as int,
            ));
        }
    }

    /// Write out the document trailer and return the finished file.
    ///
    /// The trailer consists of the pages object, the optional info
    /// and outline objects, the catalog, the cross-reference table
    /// and the startxref position. The timestamps in the info object
    /// come from the given clock reading; with `None` the info object
    /// carries no timestamps.
    #[verifier::rlimit(100)]
    pub fn finish_with_timestamp(self, ts: Option<Vec<u8>>) -> (r: Vec<u8>)
        requires
            wf(self@),
        ensures
            r@ == finish_bytes(
                self@,
                match ts {
                    Some(t) => Some(t@),
                    None => None,
                },
            ),
    {
        let ghost m = self@;
        let ghost tsv: Option<Seq<u8>> = match &ts {
            Some(t) => Some(t@),
            None => None,
        };
        let mut doc = self;
        let pp = build_pages_payload(&doc.page_object_ids);
        proof {
            assert(pp@ == pages_payload(m.pages));
        }
        doc.write_object_at(2, &pp);
        let ghost s1 = DocState { out: doc@.out, offsets: doc@.offsets };
        proof {
            lemma_obj_wrap_len(2, pages_payload(m.pages));
            assert(s1.offsets =~= sm_write_at(
                (DocState { out: m.out, offsets: m.offsets }),
                2,
                pages_payload(m.pages),
            ).offsets);
            assert(s1 == sm_write_at(
                (DocState { out: m.out, offsets: m.offsets }),
                2,
                pages_payload(m.pages),
            ));
        }
        let has_info = info_nonempty(&doc.info);
        proof {
            assert(info_view(doc.info@) =~= m.info);
            assert(has_info == info_any(m.info));
        }
        let info_id: Option<usize> = if has_info {
            let ip = build_info_payload(&doc.info, &ts);
            proof {
                assert(ip@ == info_payload(m.info, tsv));
            }
            Some(doc.append_object(&ip))
        } else {
            None
        };
        let ghost s2 = DocState { out: doc@.out, offsets: doc@.offsets };
        proof {
            if has_info {
                assert(s2.offsets =~= sm_append(s1, info_payload(m.info, tsv)).offsets);
                assert(s2 == sm_append(s1, info_payload(m.info, tsv)));
                lemma_obj_wrap_len(s1.offsets.len() as int, info_payload(m.info, tsv));
                assert(info_id matches Some(i) ==> i as int == m.offsets.len() as int);
            } else {
                assert(s2 == s1);
            }
            assert(15 * (s2.offsets.len() + 1) <= s2.out.len() + 45);
        }
        let s2_len = doc.object_offsets.len();
        proof {
            assert(s2_len == s2.offsets.len());
        }
        let outlines_id = doc.write_outline();
        let ghost s3 = DocState { out: doc@.out, offsets: doc@.offsets };
        proof {
            if m.outline.len() > 0 {
                assert(s3 == outline_emit(s2, m.outline));
                assert(outlines_id == Some(s2_len));
                lemma_outline_emit_prefix(s2, m.outline);
            } else {
                assert(s3 == s2);
                assert(outlines_id is None);
            }
            assert(s3.offsets[1] == m.offsets[1]);
            assert(s3.offsets[1] is None);
            assert(s3.offsets.len() >= 3);
        }
        let cp = build_catalog_payload(outlines_id);
        proof {
            assert(cp@ == catalog_payload(
                if m.outline.len() > 0 {
                    Some(s2.offsets.len() as int)
                } else {
                    None
                },
            ));
        }
        doc.write_object_at(1, &cp);
        let ghost s4 = DocState { out: doc@.out, offsets: doc@.offsets };
        proof {
            assert(s4.offsets =~= finish_state(m, tsv).offsets);
            assert(s4 == finish_state(m, tsv));
            assert(s4.offsets.len() >= 1);
            assert((match info_id {
                Some(i) => Some(i as int),
                None => None,
            }) == finish_info_id(m));
        }
        doc.write_xref_and_trailer(info_id);
        proof {
            assert(doc.out@ =~= finish_bytes(m, tsv));
        }
        let Pdf { out, .. } = doc;
        out
    }

    /// Write out the document trailer and return the finished file,
    /// with the info timestamps formatted from some reading of the
    /// clock.
    pub fn finish(self) -> (r: Vec<u8>)
        requires
            wf(self@),
        ensures
            exists|y: int, mo: int, d: int, h: int, mi: int, sc: int, o: int|
                r@ == finish_bytes(
                    self@,
                    Some(#[trigger] crate::clock::timestamp_bytes(y, mo, d, h, mi, sc, o)),
                ),
    {
        let ts = crate::clock::local_timestamp();
        let ghost t = ts@;
        let r = self.finish_with_timestamp(Some(ts));
        proof {
            let (y, mo, d, h, mi, sc, o) = choose|y: int, mo: int, d: int, h: int, mi: int, sc: int, o: int|
                t == #[trigger] crate::clock::timestamp_bytes(y, mo, d, h, mi, sc, o);
            assert(r@ == finish_bytes(self@, Some(crate::clock::timestamp_bytes(y, mo, d, h, mi, sc, o))));
        }
        r
    }
}



/// The object id of the `k`-th outline item: the items take
/// consecutive ids directly after the reserved parent.
pub open spec fn outline_item_id(parent: int, k: int) -> int {
    parent + 1 + k
}

/// The outline item objects from the `k`-th on, with the ids and
/// sibling references they are emitted under.
pub open spec fn outline_objs(items: Seq<(Seq<char>, int)>, parent: int, k: int) -> Seq<u8>
    decreases items.len() - k,
{
    if k < 0 || k >= items.len() {
        Seq::<u8>::empty()
    } else {
        obj_wrap(
            outline_item_id(parent, k),
            outline_item_bytes(
                items[k].0,
                items[k].1 as nat,
                parent as nat,
                outline_prev(parent, k),
                outline_next(parent, k, items.len() as int),
            ),
        ) + outline_objs(items, parent, k + 1)
    }
}

/// Each outline item is written under its predicted id: writing the
/// items from `k` on appends exactly their objects, in id order.
pub proof fn lemma_outline_sm_out(s: DocState, items: Seq<(Seq<char>, int)>, parent: int, k: int)
    requires
        0 <= k <= items.len(),
        s.offsets.len() == parent + 1 + k,
    ensures
        outline_sm(s, items, parent, k).out == s.out + outline_objs(items, parent, k),
    decreases items.len() - k,
{
    if k >= items.len() {
        assert(s.out + outline_objs(items, parent, k) =~= s.out);
    } else {
        let payload = outline_item_bytes(
            items[k].0,
            items[k].1 as nat,
            parent as nat,
            outline_prev(parent, k),
            outline_next(parent, k, items.len() as int),
        );
        let s2 = sm_append(s, payload);
        lemma_outline_sm_out(s2, items, parent, k + 1);
        assert(s.out + (obj_wrap(outline_item_id(parent, k), payload) + outline_objs(
            items,
            parent,
            k + 1,
        )) =~= (s.out + obj_wrap(outline_item_id(parent, k), payload)) + outline_objs(
            items,
            parent,
            k + 1,
        ));
    }
}

/// The outline chain is linked correctly: with the items taking
/// consecutive ids after the parent, every item's backward reference
/// names the previous item's id, every forward reference names the
/// next item's id, the two ends carry no reference, distinct items
/// have distinct ids — so following the forward references from the
/// first item visits every item exactly once — and the root object
/// names the first and last items' ids and the item count.
pub proof fn lemma_outline_chain(s: DocState, items: Seq<(Seq<char>, int)>)
    requires
        items.len() > 0,
        s.offsets.len() >= 1,
    ensures
        ({
            let parent = s.offsets.len() as int;
            let n = items.len() as int;
            &&& outline_emit(s, items).out == s.out + outline_objs(items, parent, 0) + obj_wrap(
                parent,
                outline_root_payload(
                    outline_item_id(parent, 0),
                    outline_item_id(parent, n - 1),
                    n,
                ),
            )
            &&& forall|k: int| 0 < k < n ==> outline_prev(parent, k) == Some(
                outline_item_id(parent, k - 1) as nat,
            )
            &&& outline_prev(parent, 0) is None
            &&& forall|k: int|
                0 <= k < n - 1 ==> outline_next(parent, k, n) == Some(
                    outline_item_id(parent, k + 1) as nat,
                )
            &&& outline_next(parent, n - 1, n) is None
            &&& forall|k1: int, k2: int|
                0 <= k1 < k2 < n ==> outline_item_id(parent, k1) != outline_item_id(parent, k2)
        }),
{
    let parent = s.offsets.len() as int;
    let n = items.len() as int;
    let sr = DocState { out: s.out, offsets: s.offsets.push(None) };
    lemma_outline_sm_out(sr, items, parent, 0);
    lemma_outline_sm_prefix(sr, items, parent, 0);
    assert(outline_emit(s, items).out == s.out + outline_objs(items, parent, 0) + obj_wrap(
        parent,
        outline_root_payload(parent + 1, parent + n, n),
    ));
}

/// Every offset the table records points at its object's opening
/// token in the given bytes.
pub open spec fn offsets_point(out: Seq<u8>, offsets: Seq<Option<int>>) -> bool {
    forall|i: int|
        1 <= i < offsets.len() ==> ((#[trigger] offsets[i]) matches Some(off) ==> obj_header_at(
            out,
            off,
            i,
        ))
}

/// Appending one object keeps every recorded offset pointing at its
/// object, and records a pointing offset for the new one.
pub proof fn lemma_sm_append_point(s: DocState, payload: Seq<u8>)
    requires
        offsets_point(s.out, s.offsets),
    ensures
        ({
            let r = sm_append(s, payload);
            &&& offsets_point(r.out, r.offsets)
            &&& r.offsets.len() == s.offsets.len() + 1
            &&& forall|i: int| 0 <= i < s.offsets.len() ==> r.offsets[i] == s.offsets[i]
            &&& r.offsets.last() is Some
        }),
{
    let r = sm_append(s, payload);
    let id = s.offsets.len() as int;
    assert(r.out.subrange(
        s.out.len() as int,
        s.out.len() + obj_start_bytes(id).len() as int,
    ) =~= obj_start_bytes(id));
    assert forall|i: int|
        1 <= i < r.offsets.len() implies ((#[trigger] r.offsets[i]) matches Some(off)
        ==> obj_header_at(r.out, off, i)) by {
        if i < id && r.offsets[i] is Some {
            lemma_obj_header_at_append(s.out, obj_wrap(id, payload), r.offsets[i]->Some_0, i);
        }
    }
}

/// Writing an object under a reserved id keeps every recorded offset
/// pointing at its object, and records a pointing offset for it.
pub proof fn lemma_sm_write_at_point(s: DocState, id: int, payload: Seq<u8>)
    requires
        offsets_point(s.out, s.offsets),
        1 <= id < s.offsets.len(),
    ensures
        ({
            let r = sm_write_at(s, id, payload);
            &&& offsets_point(r.out, r.offsets)
            &&& r.offsets.len() == s.offsets.len()
            &&& forall|i: int| 0 <= i < s.offsets.len() && i != id ==> r.offsets[i] == s.offsets[i]
            &&& r.offsets[id] is Some
        }),
{
    let r = sm_write_at(s, id, payload);
    assert(r.out.subrange(
        s.out.len() as int,
        s.out.len() + obj_start_bytes(id).len() as int,
    ) =~= obj_start_bytes(id));
    assert forall|i: int|
        1 <= i < r.offsets.len() implies ((#[trigger] r.offsets[i]) matches Some(off)
        ==> obj_header_at(r.out, off, i)) by {
        if i != id && r.offsets[i] is Some {
            lemma_obj_header_at_append(s.out, obj_wrap(id, payload), r.offsets[i]->Some_0, i);
        }
    }
}

/// Writing the outline items keeps every recorded offset pointing at
/// its object.
pub proof fn lemma_outline_sm_point(s: DocState, items: Seq<(Seq<char>, int)>, parent: int, k: int)
    requires
        offsets_point(s.out, s.offsets),
    ensures
        ({
            let r = outline_sm(s, items, parent, k);
            &&& offsets_point(r.out, r.offsets)
            &&& forall|i: int| 0 <= i < s.offsets.len() ==> r.offsets[i] == s.offsets[i]
        }),
    decreases items.len() - k,
{
    if 0 <= k < items.len() {
        let payload = outline_item_bytes(
            items[k].0,
            items[k].1 as nat,
            parent as nat,
            outline_prev(parent, k),
            outline_next(parent, k, items.len() as int),
        );
        lemma_sm_append_point(s, payload);
        lemma_outline_sm_point(sm_append(s, payload), items, parent, k + 1);
    }
}

/// Offset integrity: when a well-formed document is finished, every
/// object id holds a recorded offset, and seeking to that offset in
/// the emitted file lands exactly on that object's `N 0 obj` token.
/// The cross-reference table prints, for object `id`, exactly the
/// ten-digit form of `finish_state(m, ts).offsets[id]`, and the
/// `startxref` value printed is the position of the `xref` keyword.
#[verifier::rlimit(100)]
pub proof fn lemma_offset_integrity(m: PdfView, ts: Option<Seq<u8>>)
    requires
        wf(m),
    ensures
        forall|id: int|
            1 <= id < finish_state(m, ts).offsets.len() ==> (#[trigger] finish_state(
                m,
                ts,
            ).offsets[id]) is Some,
        forall|id: int|
            1 <= id < finish_state(m, ts).offsets.len() ==> obj_header_at(
                finish_bytes(m, ts),
                (#[trigger] finish_state(m, ts).offsets[id])->Some_0,
                id,
            ),
        finish_bytes(m, ts) == finish_state(m, ts).out + xref_section(finish_state(m, ts).offsets)
            + trailer_bytes(
            finish_state(m, ts).offsets.len() as int,
            finish_info_id(m),
            finish_state(m, ts).out.len() as int,
        ),
{
    let s0 = DocState { out: m.out, offsets: m.offsets };
    let s1 = sm_write_at(s0, 2, pages_payload(m.pages));
    lemma_sm_write_at_point(s0, 2, pages_payload(m.pages));
    let s2 = if info_any(m.info) {
        sm_append(s1, info_payload(m.info, ts))
    } else {
        s1
    };
    if info_any(m.info) {
        lemma_sm_append_point(s1, info_payload(m.info, ts));
    }
    let s3 = if m.outline.len() > 0 {
        outline_emit(s2, m.outline)
    } else {
        s2
    };
    if m.outline.len() > 0 {
        let parent = s2.offsets.len() as int;
        let sr = DocState { out: s2.out, offsets: s2.offsets.push(None) };
        lemma_outline_sm_point(sr, m.outline, parent, 0);
        lemma_outline_sm_prefix(sr, m.outline, parent, 0);
        let si = outline_sm(sr, m.outline, parent, 0);
        lemma_sm_write_at_point(
            si,
            parent,
            outline_root_payload(parent + 1, parent + m.outline.len(), m.outline.len() as int),
        );
    }
    let outlines_id: Option<int> = if m.outline.len() > 0 {
        Some(s2.offsets.len() as int)
    } else {
        None
    };
    let s4 = sm_write_at(s3, 1, catalog_payload(outlines_id));
    lemma_sm_write_at_point(s3, 1, catalog_payload(outlines_id));
    assert(s4 == finish_state(m, ts));
    assert forall|id: int|
        1 <= id < finish_state(m, ts).offsets.len() implies (#[trigger] finish_state(
        m,
        ts,
    ).offsets[id]) is Some by {
        if id >= 3 && id < m.offsets.len() {
            assert(m.offsets[id] is Some);
        }
    }
    let tail = xref_section(s4.offsets) + trailer_bytes(
        s4.offsets.len() as int,
        finish_info_id(m),
        s4.out.len() as int,
    );
    assert(finish_bytes(m, ts) =~= s4.out + tail);
    assert forall|id: int|
        1 <= id < finish_state(m, ts).offsets.len() implies obj_header_at(
        finish_bytes(m, ts),
        (#[trigger] finish_state(m, ts).offsets[id])->Some_0,
        id,
    ) by {
        assert(s4.offsets[id] is Some);
        assert(obj_header_at(s4.out, s4.offsets[id]->Some_0, id));
        lemma_obj_header_at_append(s4.out, tail, s4.offsets[id]->Some_0, id);
        assert(finish_bytes(m, ts) == s4.out + tail);
    }
}


} // verus!
