//! Per-glyph advance widths for the built-in fonts.
//!
//! A width table maps each one-byte code of a font's encoding to the
//! glyph's advance width in thousandths of the text-space unit; a code
//! the table does not cover falls back to a width of 100.
use vstd::prelude::*;

verus! {

/// Font metrics: one advance width per one-byte code.
#[derive(Debug, PartialEq, Eq, Hash, Clone)]
pub struct FontMetrics {
    /// The width for each code; a zero entry means the width is
    /// unknown for that code.
    pub widths: Vec<u16>,
}

/// A width table built from code/width pairs, applied in order over a
/// table of zeros.
pub open spec fn pairs_to_widths(ps: Seq<(u8, u16)>) -> Seq<u16>
    decreases ps.len(),
{
    if ps.len() == 0 {
        Seq::new(256, |i: int| 0u16)
    } else {
        pairs_to_widths(ps.drop_last()).update(ps.last().0 as int, ps.last().1)
    }
}

/// A well-formed pair list never shrinks the table.
pub proof fn lemma_pairs_to_widths_len(ps: Seq<(u8, u16)>)
    ensures
        pairs_to_widths(ps).len() == 256,
    decreases ps.len(),
{
    if ps.len() > 0 {
        lemma_pairs_to_widths_len(ps.drop_last());
    }
}

/// The width a table gives a code, if it covers it.
pub open spec fn spec_get_width(w: Seq<u16>, b: u8) -> Option<u16> {
    if w[b as int] == 0 {
        None
    } else {
        Some(w[b as int])
    }
}

/// What a code contributes to a string's width: its table entry, or
/// 100 where the table has none.
pub open spec fn width_of(w: Seq<u16>, b: u8) -> nat {
    match spec_get_width(w, b) {
        Some(x) => x as nat,
        None => 100,
    }
}

/// The total advance width of a byte string under a width table.
pub open spec fn widths_sum(w: Seq<u16>, bs: Seq<u8>) -> nat
    decreases bs.len(),
{
    if bs.len() == 0 {
        0
    } else {
        widths_sum(w, bs.drop_last()) + width_of(w, bs.last())
    }
}

/// Width is additive: the width of a concatenation is the sum of the
/// widths of the parts.
pub proof fn lemma_widths_sum_concat(w: Seq<u16>, b1: Seq<u8>, b2: Seq<u8>)
    ensures
        widths_sum(w, b1 + b2) == widths_sum(w, b1) + widths_sum(w, b2),
    decreases b2.len(),
{
    if b2.len() == 0 {
        assert(b1 + b2 =~= b1);
    } else {
        lemma_widths_sum_concat(w, b1, b2.drop_last());
        assert((b1 + b2).drop_last() =~= b1 + b2.drop_last());
        assert((b1 + b2).last() == b2.last());
    }
}

impl FontMetrics {
    /// The table covers every one-byte code.
    pub open spec fn wf(self) -> bool {
        self.widths@.len() == 256
    }

    /// Build metrics from code/width pairs; a later pair for the same
    /// code replaces an earlier one.
    pub fn from_pairs(pairs: &Vec<(u8, u16)>) -> (r: FontMetrics)
        ensures
            r.widths@ == pairs_to_widths(pairs@),
            r.wf(),
    {
        let mut w: Vec<u16> = vec![0u16; 256];
        proof {
            assert(w@ =~= pairs_to_widths(pairs@.subrange(0, 0)));
        }
        let mut i: usize = 0;
        while i < pairs.len()
            invariant
                i <= pairs@.len(),
                w@.len() == 256,
                w@ == pairs_to_widths(pairs@.subrange(0, i as int)),
            decreases pairs@.len() - i,
        {
            let (code, width) = pairs[i];
            w[code as usize] = width;
            proof {
                let pre = pairs@.subrange(0, i as int);
                let cur = pairs@.subrange(0, i + 1int);
                assert(cur.drop_last() =~= pre);
                assert(cur.last() == pairs@[i as int]);
                assert(w@ =~= pairs_to_widths(pre).update(code as int, width));
            }
            i = i + 1;
        }
        proof {
            assert(pairs@.subrange(0, pairs@.len() as int) =~= pairs@);
            lemma_pairs_to_widths_len(pairs@);
        }
        FontMetrics { widths: w }
    }

    /// The advance width the table records for a code, if any.
    pub fn get_width(&self, code: u8) -> (r: Option<u16>)
        requires
            self.wf(),
        ensures
            r == spec_get_width(self.widths@, code),
    {
        let w = self.widths[code as usize];
        if w == 0 {
            None
        } else {
            Some(w)
        }
    }
}

/// Advance widths, per code, for Courier (all weights): every glyph advances 600.
pub open spec fn courier_pairs_spec() -> Seq<(u8, u16)> {
    seq![
        (32u8, 600u16),
        (33u8, 600u16),
        (34u8, 600u16),
        (35u8, 600u16),
        (36u8, 600u16),
        (37u8, 600u16),
        (38u8, 600u16),
        (39u8, 600u16),
        (40u8, 600u16),
        (41u8, 600u16),
        (42u8, 600u16),
        (43u8, 600u16),
        (44u8, 600u16),
        (45u8, 600u16),
        (46u8, 600u16),
        (47u8, 600u16),
        (48u8, 600u16),
        (49u8, 600u16),
        (50u8, 600u16),
        (51u8, 600u16),
        (52u8, 600u16),
        (53u8, 600u16),
        (54u8, 600u16),
        (55u8, 600u16),
        (56u8, 600u16),
        (57u8, 600u16),
        (58u8, 600u16),
        (59u8, 600u16),
        (60u8, 600u16),
        (61u8, 600u16),
        (62u8, 600u16),
        (63u8, 600u16),
        (64u8, 600u16),
        (65u8, 600u16),
        (66u8, 600u16),
        (67u8, 600u16),
        (68u8, 600u16),
        (69u8, 600u16),
        (70u8, 600u16),
        (71u8, 600u16),
        (72u8, 600u16),
        (73u8, 600u16),
        (74u8, 600u16),
        (75u8, 600u16),
        (76u8, 600u16),
        (77u8, 600u16),
        (78u8, 600u16),
        (79u8, 600u16),
        (80u8, 600u16),
        (81u8, 600u16),
        (82u8, 600u16),
        (83u8, 600u16),
        (84u8, 600u16),
        (85u8, 600u16),
        (86u8, 600u16),
        (87u8, 600u16),
        (88u8, 600u16),
        (89u8, 600u16),
        (90u8, 600u16),
        (91u8, 600u16),
        (92u8, 600u16),
        (93u8, 600u16),
        (94u8, 600u16),
        (95u8, 600u16),
        (96u8, 600u16),
        (97u8, 600u16),
        (98u8, 600u16),
        (99u8, 600u16),
        (100u8, 600u16),
        (101u8, 600u16),
        (102u8, 600u16),
        (103u8, 600u16),
        (104u8, 600u16),
        (105u8, 600u16),
        (106u8, 600u16),
        (107u8, 600u16),
        (108u8, 600u16),
        (109u8, 600u16),
        (110u8, 600u16),
        (111u8, 600u16),
        (112u8, 600u16),
        (113u8, 600u16),
        (114u8, 600u16),
        (115u8, 600u16),
        (116u8, 600u16),
        (117u8, 600u16),
        (118u8, 600u16),
        (119u8, 600u16),
        (120u8, 600u16),
        (121u8, 600u16),
        (122u8, 600u16),
        (123u8, 600u16),
        (124u8, 600u16),
        (125u8, 600u16),
        (126u8, 600u16),
        (127u8, 600u16),
        (128u8, 600u16),
        (129u8, 600u16),
        (130u8, 600u16),
        (131u8, 600u16),
        (132u8, 600u16),
        (133u8, 600u16),
        (134u8, 600u16),
        (135u8, 600u16),
        (136u8, 600u16),
        (137u8, 600u16),
        (138u8, 600u16),
        (139u8, 600u16),
        (140u8, 600u16),
        (141u8, 600u16),
        (142u8, 600u16),
        (143u8, 600u16),
        (144u8, 600u16),
        (145u8, 600u16),
        (146u8, 600u16),
        (147u8, 600u16),
        (148u8, 600u16),
        (149u8, 600u16),
        (150u8, 600u16),
        (151u8, 600u16),
        (152u8, 600u16),
        (153u8, 600u16),
        (154u8, 600u16),
        (155u8, 600u16),
        (156u8, 600u16),
        (157u8, 600u16),
        (158u8, 600u16),
        (159u8, 600u16),
        (160u8, 600u16),
        (161u8, 600u16),
        (162u8, 600u16),
        (163u8, 600u16),
        (164u8, 600u16),
        (165u8, 600u16),
        (166u8, 600u16),
        (167u8, 600u16),
        (168u8, 600u16),
        (169u8, 600u16),
        (170u8, 600u16),
        (171u8, 600u16),
        (172u8, 600u16),
        (173u8, 600u16),
        (174u8, 600u16),
        (175u8, 600u16),
        (176u8, 600u16),
        (177u8, 600u16),
        (178u8, 600u16),
        (179u8, 600u16),
        (180u8, 600u16),
        (181u8, 600u16),
        (182u8, 600u16),
        (183u8, 600u16),
        (184u8, 600u16),
        (185u8, 600u16),
        (186u8, 600u16),
        (187u8, 600u16),
        (188u8, 600u16),
        (189u8, 600u16),
        (190u8, 600u16),
        (191u8, 600u16),
        (192u8, 600u16),
        (193u8, 600u16),
        (194u8, 600u16),
        (195u8, 600u16),
        (196u8, 600u16),
        (197u8, 600u16),
        (198u8, 600u16),
        (199u8, 600u16),
        (200u8, 600u16),
        (201u8, 600u16),
        (202u8, 600u16),
        (203u8, 600u16),
        (204u8, 600u16),
        (205u8, 600u16),
        (206u8, 600u16),
        (207u8, 600u16),
        (208u8, 600u16),
        (209u8, 600u16),
        (210u8, 600u16),
        (211u8, 600u16),
        (212u8, 600u16),
        (213u8, 600u16),
        (214u8, 600u16),
        (215u8, 600u16),
        (216u8, 600u16),
        (217u8, 600u16),
        (218u8, 600u16),
        (219u8, 600u16),
        (220u8, 600u16),
        (221u8, 600u16),
        (222u8, 600u16),
        (223u8, 600u16),
        (224u8, 600u16),
        (225u8, 600u16),
        (226u8, 600u16),
        (227u8, 600u16),
        (228u8, 600u16),
        (229u8, 600u16),
        (230u8, 600u16),
        (231u8, 600u16),
        (232u8, 600u16),
        (233u8, 600u16),
        (234u8, 600u16),
        (235u8, 600u16),
        (236u8, 600u16),
        (237u8, 600u16),
        (238u8, 600u16),
        (239u8, 600u16),
        (240u8, 600u16),
        (241u8, 600u16),
        (242u8, 600u16),
        (243u8, 600u16),
        (244u8, 600u16),
        (245u8, 600u16),
        (246u8, 600u16),
        (247u8, 600u16),
        (248u8, 600u16),
        (249u8, 600u16),
        (250u8, 600u16),
        (251u8, 600u16),
        (252u8, 600u16),
        (253u8, 600u16),
        (254u8, 600u16),
        (255u8, 600u16),
    ]
}

/// Advance widths, per code, for Courier (all weights): every glyph advances 600.
pub fn courier_pairs() -> (r: Vec<(u8, u16)>)
    ensures
        r@ == courier_pairs_spec(),
{
    let r: Vec<(u8, u16)> = vec![
        (32u8, 600u16),
        (33u8, 600u16),
        (34u8, 600u16),
        (35u8, 600u16),
        (36u8, 600u16),
        (37u8, 600u16),
        (38u8, 600u16),
        (39u8, 600u16),
        (40u8, 600u16),
        (41u8, 600u16),
        (42u8, 600u16),
        (43u8, 600u16),
        (44u8, 600u16),
        (45u8, 600u16),
        (46u8, 600u16),
        (47u8, 600u16),
        (48u8, 600u16),
        (49u8, 600u16),
        (50u8, 600u16),
        (51u8, 600u16),
        (52u8, 600u16),
        (53u8, 600u16),
        (54u8, 600u16),
        (55u8, 600u16),
        (56u8, 600u16),
        (57u8, 600u16),
        (58u8, 600u16),
        (59u8, 600u16),
        (60u8, 600u16),
        (61u8, 600u16),
        (62u8, 600u16),
        (63u8, 600u16),
        (64u8, 600u16),
        (65u8, 600u16),
        (66u8, 600u16),
        (67u8, 600u16),
        (68u8, 600u16),
        (69u8, 600u16),
        (70u8, 600u16),
        (71u8, 600u16),
        (72u8, 600u16),
        (73u8, 600u16),
        (74u8, 600u16),
        (75u8, 600u16),
        (76u8, 600u16),
        (77u8, 600u16),
        (78u8, 600u16),
        (79u8, 600u16),
        (80u8, 600u16),
        (81u8, 600u16),
        (82u8, 600u16),
        (83u8, 600u16),
        (84u8, 600u16),
        (85u8, 600u16),
        (86u8, 600u16),
        (87u8, 600u16),
        (88u8, 600u16),
        (89u8, 600u16),
        (90u8, 600u16),
        (91u8, 600u16),
        (92u8, 600u16),
        (93u8, 600u16),
        (94u8, 600u16),
        (95u8, 600u16),
        (96u8, 600u16),
        (97u8, 600u16),
        (98u8, 600u16),
        (99u8, 600u16),
        (100u8, 600u16),
        (101u8, 600u16),
        (102u8, 600u16),
        (103u8, 600u16),
        (104u8, 600u16),
        (105u8, 600u16),
        (106u8, 600u16),
        (107u8, 600u16),
        (108u8, 600u16),
        (109u8, 600u16),
        (110u8, 600u16),
        (111u8, 600u16),
        (112u8, 600u16),
        (113u8, 600u16),
        (114u8, 600u16),
        (115u8, 600u16),
        (116u8, 600u16),
        (117u8, 600u16),
        (118u8, 600u16),
        (119u8, 600u16),
        (120u8, 600u16),
        (121u8, 600u16),
        (122u8, 600u16),
        (123u8, 600u16),
        (124u8, 600u16),
        (125u8, 600u16),
        (126u8, 600u16),
        (127u8, 600u16),
        (128u8, 600u16),
        (129u8, 600u16),
        (130u8, 600u16),
        (131u8, 600u16),
        (132u8, 600u16),
        (133u8, 600u16),
        (134u8, 600u16),
        (135u8, 600u16),
        (136u8, 600u16),
        (137u8, 600u16),
        (138u8, 600u16),
        (139u8, 600u16),
        (140u8, 600u16),
        (141u8, 600u16),
        (142u8, 600u16),
        (143u8, 600u16),
        (144u8, 600u16),
        (145u8, 600u16),
        (146u8, 600u16),
        (147u8, 600u16),
        (148u8, 600u16),
        (149u8, 600u16),
        (150u8, 600u16),
        (151u8, 600u16),
        (152u8, 600u16),
        (153u8, 600u16),
        (154u8, 600u16),
        (155u8, 600u16),
        (156u8, 600u16),
        (157u8, 600u16),
        (158u8, 600u16),
        (159u8, 600u16),
        (160u8, 600u16),
        (161u8, 600u16),
        (162u8, 600u16),
        (163u8, 600u16),
        (164u8, 600u16),
        (165u8, 600u16),
        (166u8, 600u16),
        (167u8, 600u16),
        (168u8, 600u16),
        (169u8, 600u16),
        (170u8, 600u16),
        (171u8, 600u16),
        (172u8, 600u16),
        (173u8, 600u16),
        (174u8, 600u16),
        (175u8, 600u16),
        (176u8, 600u16),
        (177u8, 600u16),
        (178u8, 600u16),
        (179u8, 600u16),
        (180u8, 600u16),
        (181u8, 600u16),
        (182u8, 600u16),
        (183u8, 600u16),
        (184u8, 600u16),
        (185u8, 600u16),
        (186u8, 600u16),
        (187u8, 600u16),
        (188u8, 600u16),
        (189u8, 600u16),
        (190u8, 600u16),
        (191u8, 600u16),
        (192u8, 600u16),
        (193u8, 600u16),
        (194u8, 600u16),
        (195u8, 600u16),
        (196u8, 600u16),
        (197u8, 600u16),
        (198u8, 600u16),
        (199u8, 600u16),
        (200u8, 600u16),
        (201u8, 600u16),
        (202u8, 600u16),
        (203u8, 600u16),
        (204u8, 600u16),
        (205u8, 600u16),
        (206u8, 600u16),
        (207u8, 600u16),
        (208u8, 600u16),
        (209u8, 600u16),
        (210u8, 600u16),
        (211u8, 600u16),
        (212u8, 600u16),
        (213u8, 600u16),
        (214u8, 600u16),
        (215u8, 600u16),
        (216u8, 600u16),
        (217u8, 600u16),
        (218u8, 600u16),
        (219u8, 600u16),
        (220u8, 600u16),
        (221u8, 600u16),
        (222u8, 600u16),
        (223u8, 600u16),
        (224u8, 600u16),
        (225u8, 600u16),
        (226u8, 600u16),
        (227u8, 600u16),
        (228u8, 600u16),
        (229u8, 600u16),
        (230u8, 600u16),
        (231u8, 600u16),
        (232u8, 600u16),
        (233u8, 600u16),
        (234u8, 600u16),
        (235u8, 600u16),
        (236u8, 600u16),
        (237u8, 600u16),
        (238u8, 600u16),
        (239u8, 600u16),
        (240u8, 600u16),
        (241u8, 600u16),
        (242u8, 600u16),
        (243u8, 600u16),
        (244u8, 600u16),
        (245u8, 600u16),
        (246u8, 600u16),
        (247u8, 600u16),
        (248u8, 600u16),
        (249u8, 600u16),
        (250u8, 600u16),
        (251u8, 600u16),
        (252u8, 600u16),
        (253u8, 600u16),
        (254u8, 600u16),
        (255u8, 600u16),
    ];
    proof {
        assert(r@ =~= courier_pairs_spec());
    }
    r
}

/// Advance widths, per code, for Helvetica and Helvetica-Oblique.
pub open spec fn helvetica_pairs_spec() -> Seq<(u8, u16)> {
    seq![
        (32u8, 278u16),
        (33u8, 278u16),
        (34u8, 355u16),
        (35u8, 556u16),
        (36u8, 556u16),
        (37u8, 889u16),
        (38u8, 667u16),
        (39u8, 191u16),
        (40u8, 333u16),
        (41u8, 333u16),
        (42u8, 389u16),
        (43u8, 584u16),
        (44u8, 278u16),
        (45u8, 333u16),
        (46u8, 278u16),
        (47u8, 278u16),
        (48u8, 556u16),
        (49u8, 556u16),
        (50u8, 556u16),
        (51u8, 556u16),
        (52u8, 556u16),
        (53u8, 556u16),
        (54u8, 556u16),
        (55u8, 556u16),
        (56u8, 556u16),
        (57u8, 556u16),
        (58u8, 278u16),
        (59u8, 278u16),
        (60u8, 584u16),
        (61u8, 584u16),
        (62u8, 584u16),
        (63u8, 556u16),
        (64u8, 1015u16),
        (65u8, 667u16),
        (66u8, 667u16),
        (67u8, 722u16),
        (68u8, 722u16),
        (69u8, 667u16),
        (70u8, 611u16),
        (71u8, 778u16),
        (72u8, 722u16),
        (73u8, 278u16),
        (74u8, 500u16),
        (75u8, 667u16),
        (76u8, 556u16),
        (77u8, 833u16),
        (78u8, 722u16),
        (79u8, 778u16),
        (80u8, 667u16),
        (81u8, 778u16),
        (82u8, 722u16),
        (83u8, 667u16),
        (84u8, 611u16),
        (85u8, 722u16),
        (86u8, 667u16),
        (87u8, 944u16),
        (88u8, 667u16),
        (89u8, 667u16),
        (90u8, 611u16),
        (91u8, 278u16),
        (92u8, 278u16),
        (93u8, 278u16),
        (94u8, 469u16),
        (95u8, 556u16),
        (96u8, 333u16),
        (97u8, 556u16),
        (98u8, 556u16),
        (99u8, 500u16),
        (100u8, 556u16),
        (101u8, 556u16),
        (102u8, 278u16),
        (103u8, 556u16),
        (104u8, 556u16),
        (105u8, 222u16),
        (106u8, 222u16),
        (107u8, 500u16),
        (108u8, 222u16),
        (109u8, 833u16),
        (110u8, 556u16),
        (111u8, 556u16),
        (112u8, 556u16),
        (113u8, 556u16),
        (114u8, 333u16),
        (115u8, 500u16),
        (116u8, 278u16),
        (117u8, 556u16),
        (118u8, 500u16),
        (119u8, 722u16),
        (120u8, 500u16),
        (121u8, 500u16),
        (122u8, 500u16),
        (123u8, 334u16),
        (124u8, 260u16),
        (125u8, 334u16),
        (126u8, 584u16),
    ]
}

/// Advance widths, per code, for Helvetica and Helvetica-Oblique.
pub fn helvetica_pairs() -> (r: Vec<(u8, u16)>)
    ensures
        r@ == helvetica_pairs_spec(),
{
    let r: Vec<(u8, u16)> = vec![
        (32u8, 278u16),
        (33u8, 278u16),
        (34u8, 355u16),
        (35u8, 556u16),
        (36u8, 556u16),
        (37u8, 889u16),
        (38u8, 667u16),
        (39u8, 191u16),
        (40u8, 333u16),
        (41u8, 333u16),
        (42u8, 389u16),
        (43u8, 584u16),
        (44u8, 278u16),
        (45u8, 333u16),
        (46u8, 278u16),
        (47u8, 278u16),
        (48u8, 556u16),
        (49u8, 556u16),
        (50u8, 556u16),
        (51u8, 556u16),
        (52u8, 556u16),
        (53u8, 556u16),
        (54u8, 556u16),
        (55u8, 556u16),
        (56u8, 556u16),
        (57u8, 556u16),
        (58u8, 278u16),
        (59u8, 278u16),
        (60u8, 584u16),
        (61u8, 584u16),
        (62u8, 584u16),
        (63u8, 556u16),
        (64u8, 1015u16),
        (65u8, 667u16),
        (66u8, 667u16),
        (67u8, 722u16),
        (68u8, 722u16),
        (69u8, 667u16),
        (70u8, 611u16),
        (71u8, 778u16),
        (72u8, 722u16),
        (73u8, 278u16),
        (74u8, 500u16),
        (75u8, 667u16),
        (76u8, 556u16),
        (77u8, 833u16),
        (78u8, 722u16),
        (79u8, 778u16),
        (80u8, 667u16),
        (81u8, 778u16),
        (82u8, 722u16),
        (83u8, 667u16),
        (84u8, 611u16),
        (85u8, 722u16),
        (86u8, 667u16),
        (87u8, 944u16),
        (88u8, 667u16),
        (89u8, 667u16),
        (90u8, 611u16),
        (91u8, 278u16),
        (92u8, 278u16),
        (93u8, 278u16),
        (94u8, 469u16),
        (95u8, 556u16),
        (96u8, 333u16),
        (97u8, 556u16),
        (98u8, 556u16),
        (99u8, 500u16),
        (100u8, 556u16),
        (101u8, 556u16),
        (102u8, 278u16),
        (103u8, 556u16),
        (104u8, 556u16),
        (105u8, 222u16),
        (106u8, 222u16),
        (107u8, 500u16),
        (108u8, 222u16),
        (109u8, 833u16),
        (110u8, 556u16),
        (111u8, 556u16),
        (112u8, 556u16),
        (113u8, 556u16),
        (114u8, 333u16),
        (115u8, 500u16),
        (116u8, 278u16),
        (117u8, 556u16),
        (118u8, 500u16),
        (119u8, 722u16),
        (120u8, 500u16),
        (121u8, 500u16),
        (122u8, 500u16),
        (123u8, 334u16),
        (124u8, 260u16),
        (125u8, 334u16),
        (126u8, 584u16),
    ];
    proof {
        assert(r@ =~= helvetica_pairs_spec());
    }
    r
}

/// Advance widths, per code, for Helvetica-Bold and Helvetica-BoldOblique.
pub open spec fn helvetica_bold_pairs_spec() -> Seq<(u8, u16)> {
    seq![
        (32u8, 278u16),
        (33u8, 333u16),
        (34u8, 474u16),
        (35u8, 556u16),
        (36u8, 556u16),
        (37u8, 889u16),
        (38u8, 722u16),
        (39u8, 238u16),
        (40u8, 333u16),
        (41u8, 333u16),
        (42u8, 389u16),
        (43u8, 584u16),
        (44u8, 278u16),
        (45u8, 333u16),
        (46u8, 278u16),
        (47u8, 278u16),
        (48u8, 556u16),
        (49u8, 556u16),
        (50u8, 556u16),
        (51u8, 556u16),
        (52u8, 556u16),
        (53u8, 556u16),
        (54u8, 556u16),
        (55u8, 556u16),
        (56u8, 556u16),
        (57u8, 556u16),
        (58u8, 333u16),
        (59u8, 333u16),
        (60u8, 584u16),
        (61u8, 584u16),
        (62u8, 584u16),
        (63u8, 611u16),
        (64u8, 975u16),
        (65u8, 722u16),
        (66u8, 722u16),
        (67u8, 722u16),
        (68u8, 722u16),
        (69u8, 667u16),
        (70u8, 611u16),
        (71u8, 778u16),
        (72u8, 722u16),
        (73u8, 278u16),
        (74u8, 556u16),
        (75u8, 722u16),
        (76u8, 611u16),
        (77u8, 833u16),
        (78u8, 722u16),
        (79u8, 778u16),
        (80u8, 667u16),
        (81u8, 778u16),
        (82u8, 722u16),
        (83u8, 667u16),
        (84u8, 611u16),
        (85u8, 722u16),
        (86u8, 667u16),
        (87u8, 944u16),
        (88u8, 667u16),
        (89u8, 667u16),
        (90u8, 611u16),
        (91u8, 333u16),
        (92u8, 278u16),
        (93u8, 333u16),
        (94u8, 584u16),
        (95u8, 556u16),
        (96u8, 333u16),
        (97u8, 556u16),
        (98u8, 611u16),
        (99u8, 556u16),
        (100u8, 611u16),
        (101u8, 556u16),
        (102u8, 333u16),
        (103u8, 611u16),
        (104u8, 611u16),
        (105u8, 278u16),
        (106u8, 278u16),
        (107u8, 556u16),
        (108u8, 278u16),
        (109u8, 889u16),
        (110u8, 611u16),
        (111u8, 611u16),
        (112u8, 611u16),
        (113u8, 611u16),
        (114u8, 389u16),
        (115u8, 556u16),
        (116u8, 333u16),
        (117u8, 611u16),
        (118u8, 556u16),
        (119u8, 778u16),
        (120u8, 556u16),
        (121u8, 556u16),
        (122u8, 500u16),
        (123u8, 389u16),
        (124u8, 280u16),
        (125u8, 389u16),
        (126u8, 584u16),
    ]
}

/// Advance widths, per code, for Helvetica-Bold and Helvetica-BoldOblique.
pub fn helvetica_bold_pairs() -> (r: Vec<(u8, u16)>)
    ensures
        r@ == helvetica_bold_pairs_spec(),
{
    let r: Vec<(u8, u16)> = vec![
        (32u8, 278u16),
        (33u8, 333u16),
        (34u8, 474u16),
        (35u8, 556u16),
        (36u8, 556u16),
        (37u8, 889u16),
        (38u8, 722u16),
        (39u8, 238u16),
        (40u8, 333u16),
        (41u8, 333u16),
        (42u8, 389u16),
        (43u8, 584u16),
        (44u8, 278u16),
        (45u8, 333u16),
        (46u8, 278u16),
        (47u8, 278u16),
        (48u8, 556u16),
        (49u8, 556u16),
        (50u8, 556u16),
        (51u8, 556u16),
        (52u8, 556u16),
        (53u8, 556u16),
        (54u8, 556u16),
        (55u8, 556u16),
        (56u8, 556u16),
        (57u8, 556u16),
        (58u8, 333u16),
        (59u8, 333u16),
        (60u8, 584u16),
        (61u8, 584u16),
        (62u8, 584u16),
        (63u8, 611u16),
        (64u8, 975u16),
        (65u8, 722u16),
        (66u8, 722u16),
        (67u8, 722u16),
        (68u8, 722u16),
        (69u8, 667u16),
        (70u8, 611u16),
        (71u8, 778u16),
        (72u8, 722u16),
        (73u8, 278u16),
        (74u8, 556u16),
        (75u8, 722u16),
        (76u8, 611u16),
        (77u8, 833u16),
        (78u8, 722u16),
        (79u8, 778u16),
        (80u8, 667u16),
        (81u8, 778u16),
        (82u8, 722u16),
        (83u8, 667u16),
        (84u8, 611u16),
        (85u8, 722u16),
        (86u8, 667u16),
        (87u8, 944u16),
        (88u8, 667u16),
        (89u8, 667u16),
        (90u8, 611u16),
        (91u8, 333u16),
        (92u8, 278u16),
        (93u8, 333u16),
        (94u8, 584u16),
        (95u8, 556u16),
        (96u8, 333u16),
        (97u8, 556u16),
        (98u8, 611u16),
        (99u8, 556u16),
        (100u8, 611u16),
        (101u8, 556u16),
        (102u8, 333u16),
        (103u8, 611u16),
        (104u8, 611u16),
        (105u8, 278u16),
        (106u8, 278u16),
        (107u8, 556u16),
        (108u8, 278u16),
        (109u8, 889u16),
        (110u8, 611u16),
        (111u8, 611u16),
        (112u8, 611u16),
        (113u8, 611u16),
        (114u8, 389u16),
        (115u8, 556u16),
        (116u8, 333u16),
        (117u8, 611u16),
        (118u8, 556u16),
        (119u8, 778u16),
        (120u8, 556u16),
        (121u8, 556u16),
        (122u8, 500u16),
        (123u8, 389u16),
        (124u8, 280u16),
        (125u8, 389u16),
        (126u8, 584u16),
    ];
    proof {
        assert(r@ =~= helvetica_bold_pairs_spec());
    }
    r
}

/// Advance widths, per code, for Times-Roman.
pub open spec fn times_roman_pairs_spec() -> Seq<(u8, u16)> {
    seq![
        (32u8, 250u16),
        (33u8, 333u16),
        (34u8, 408u16),
        (35u8, 500u16),
        (36u8, 500u16),
        (37u8, 833u16),
        (38u8, 778u16),
        (39u8, 180u16),
        (40u8, 333u16),
        (41u8, 333u16),
        (42u8, 500u16),
        (43u8, 564u16),
        (44u8, 250u16),
        (45u8, 333u16),
        (46u8, 250u16),
        (47u8, 278u16),
        (48u8, 500u16),
        (49u8, 500u16),
        (50u8, 500u16),
        (51u8, 500u16),
        (52u8, 500u16),
        (53u8, 500u16),
        (54u8, 500u16),
        (55u8, 500u16),
        (56u8, 500u16),
        (57u8, 500u16),
        (58u8, 278u16),
        (59u8, 278u16),
        (60u8, 564u16),
        (61u8, 564u16),
        (62u8, 564u16),
        (63u8, 444u16),
        (64u8, 921u16),
        (65u8, 722u16),
        (66u8, 667u16),
        (67u8, 667u16),
        (68u8, 722u16),
        (69u8, 611u16),
        (70u8, 556u16),
        (71u8, 722u16),
        (72u8, 722u16),
        (73u8, 333u16),
        (74u8, 389u16),
        (75u8, 722u16),
        (76u8, 611u16),
        (77u8, 889u16),
        (78u8, 722u16),
        (79u8, 722u16),
        (80u8, 556u16),
        (81u8, 722u16),
        (82u8, 667u16),
        (83u8, 556u16),
        (84u8, 611u16),
        (85u8, 722u16),
        (86u8, 722u16),
        (87u8, 944u16),
        (88u8, 722u16),
        (89u8, 722u16),
        (90u8, 611u16),
        (91u8, 333u16),
        (92u8, 278u16),
        (93u8, 333u16),
        (94u8, 469u16),
        (95u8, 500u16),
        (96u8, 333u16),
        (97u8, 444u16),
        (98u8, 500u16),
        (99u8, 444u16),
        (100u8, 500u16),
        (101u8, 444u16),
        (102u8, 333u16),
        (103u8, 500u16),
        (104u8, 500u16),
        (105u8, 278u16),
        (106u8, 278u16),
        (107u8, 500u16),
        (108u8, 278u16),
        (109u8, 778u16),
        (110u8, 500u16),
        (111u8, 500u16),
        (112u8, 500u16),
        (113u8, 500u16),
        (114u8, 333u16),
        (115u8, 389u16),
        (116u8, 278u16),
        (117u8, 500u16),
        (118u8, 500u16),
        (119u8, 722u16),
        (120u8, 500u16),
        (121u8, 500u16),
        (122u8, 444u16),
        (123u8, 480u16),
        (124u8, 200u16),
        (125u8, 480u16),
        (126u8, 541u16),
    ]
}

/// Advance widths, per code, for Times-Roman.
pub fn times_roman_pairs() -> (r: Vec<(u8, u16)>)
    ensures
        r@ == times_roman_pairs_spec(),
{
    let r: Vec<(u8, u16)> = vec![
        (32u8, 250u16),
        (33u8, 333u16),
        (34u8, 408u16),
        (35u8, 500u16),
        (36u8, 500u16),
        (37u8, 833u16),
        (38u8, 778u16),
        (39u8, 180u16),
        (40u8, 333u16),
        (41u8, 333u16),
        (42u8, 500u16),
        (43u8, 564u16),
        (44u8, 250u16),
        (45u8, 333u16),
        (46u8, 250u16),
        (47u8, 278u16),
        (48u8, 500u16),
        (49u8, 500u16),
        (50u8, 500u16),
        (51u8, 500u16),
        (52u8, 500u16),
        (53u8, 500u16),
        (54u8, 500u16),
        (55u8, 500u16),
        (56u8, 500u16),
        (57u8, 500u16),
        (58u8, 278u16),
        (59u8, 278u16),
        (60u8, 564u16),
        (61u8, 564u16),
        (62u8, 564u16),
        (63u8, 444u16),
        (64u8, 921u16),
        (65u8, 722u16),
        (66u8, 667u16),
        (67u8, 667u16),
        (68u8, 722u16),
        (69u8, 611u16),
        (70u8, 556u16),
        (71u8, 722u16),
        (72u8, 722u16),
        (73u8, 333u16),
        (74u8, 389u16),
        (75u8, 722u16),
        (76u8, 611u16),
        (77u8, 889u16),
        (78u8, 722u16),
        (79u8, 722u16),
        (80u8, 556u16),
        (81u8, 722u16),
        (82u8, 667u16),
        (83u8, 556u16),
        (84u8, 611u16),
        (85u8, 722u16),
        (86u8, 722u16),
        (87u8, 944u16),
        (88u8, 722u16),
        (89u8, 722u16),
        (90u8, 611u16),
        (91u8, 333u16),
        (92u8, 278u16),
        (93u8, 333u16),
        (94u8, 469u16),
        (95u8, 500u16),
        (96u8, 333u16),
        (97u8, 444u16),
        (98u8, 500u16),
        (99u8, 444u16),
        (100u8, 500u16),
        (101u8, 444u16),
        (102u8, 333u16),
        (103u8, 500u16),
        (104u8, 500u16),
        (105u8, 278u16),
        (106u8, 278u16),
        (107u8, 500u16),
        (108u8, 278u16),
        (109u8, 778u16),
        (110u8, 500u16),
        (111u8, 500u16),
        (112u8, 500u16),
        (113u8, 500u16),
        (114u8, 333u16),
        (115u8, 389u16),
        (116u8, 278u16),
        (117u8, 500u16),
        (118u8, 500u16),
        (119u8, 722u16),
        (120u8, 500u16),
        (121u8, 500u16),
        (122u8, 444u16),
        (123u8, 480u16),
        (124u8, 200u16),
        (125u8, 480u16),
        (126u8, 541u16),
    ];
    proof {
        assert(r@ =~= times_roman_pairs_spec());
    }
    r
}

/// Advance widths, per code, for Times-Bold.
pub open spec fn times_bold_pairs_spec() -> Seq<(u8, u16)> {
    seq![
        (32u8, 250u16),
        (33u8, 333u16),
        (34u8, 555u16),
        (35u8, 500u16),
        (36u8, 500u16),
        (37u8, 1000u16),
        (38u8, 833u16),
        (39u8, 278u16),
        (40u8, 333u16),
        (41u8, 333u16),
        (42u8, 500u16),
        (43u8, 570u16),
        (44u8, 250u16),
        (45u8, 333u16),
        (46u8, 250u16),
        (47u8, 278u16),
        (48u8, 500u16),
        (49u8, 500u16),
        (50u8, 500u16),
        (51u8, 500u16),
        (52u8, 500u16),
        (53u8, 500u16),
        (54u8, 500u16),
        (55u8, 500u16),
        (56u8, 500u16),
        (57u8, 500u16),
        (58u8, 333u16),
        (59u8, 333u16),
        (60u8, 570u16),
        (61u8, 570u16),
        (62u8, 570u16),
        (63u8, 500u16),
        (64u8, 930u16),
        (65u8, 722u16),
        (66u8, 667u16),
        (67u8, 722u16),
        (68u8, 722u16),
        (69u8, 667u16),
        (70u8, 611u16),
        (71u8, 778u16),
        (72u8, 778u16),
        (73u8, 389u16),
        (74u8, 500u16),
        (75u8, 778u16),
        (76u8, 667u16),
        (77u8, 944u16),
        (78u8, 722u16),
        (79u8, 778u16),
        (80u8, 611u16),
        (81u8, 778u16),
        (82u8, 722u16),
        (83u8, 556u16),
        (84u8, 667u16),
        (85u8, 722u16),
        (86u8, 722u16),
        (87u8, 1000u16),
        (88u8, 722u16),
        (89u8, 722u16),
        (90u8, 667u16),
        (91u8, 333u16),
        (92u8, 278u16),
        (93u8, 333u16),
        (94u8, 581u16),
        (95u8, 500u16),
        (96u8, 333u16),
        (97u8, 500u16),
        (98u8, 556u16),
        (99u8, 444u16),
        (100u8, 556u16),
        (101u8, 444u16),
        (102u8, 333u16),
        (103u8, 500u16),
        (104u8, 556u16),
        (105u8, 278u16),
        (106u8, 333u16),
        (107u8, 556u16),
        (108u8, 278u16),
        (109u8, 833u16),
        (110u8, 556u16),
        (111u8, 500u16),
        (112u8, 556u16),
        (113u8, 556u16),
        (114u8, 444u16),
        (115u8, 389u16),
        (116u8, 333u16),
        (117u8, 556u16),
        (118u8, 500u16),
        (119u8, 722u16),
        (120u8, 500u16),
        (121u8, 500u16),
        (122u8, 444u16),
        (123u8, 394u16),
        (124u8, 220u16),
        (125u8, 394u16),
        (126u8, 520u16),
    ]
}

/// Advance widths, per code, for Times-Bold.
pub fn times_bold_pairs() -> (r: Vec<(u8, u16)>)
    ensures
        r@ == times_bold_pairs_spec(),
{
    let r: Vec<(u8, u16)> = vec![
        (32u8, 250u16),
        (33u8, 333u16),
        (34u8, 555u16),
        (35u8, 500u16),
        (36u8, 500u16),
        (37u8, 1000u16),
        (38u8, 833u16),
        (39u8, 278u16),
        (40u8, 333u16),
        (41u8, 333u16),
        (42u8, 500u16),
        (43u8, 570u16),
        (44u8, 250u16),
        (45u8, 333u16),
        (46u8, 250u16),
        (47u8, 278u16),
        (48u8, 500u16),
        (49u8, 500u16),
        (50u8, 500u16),
        (51u8, 500u16),
        (52u8, 500u16),
        (53u8, 500u16),
        (54u8, 500u16),
        (55u8, 500u16),
        (56u8, 500u16),
        (57u8, 500u16),
        (58u8, 333u16),
        (59u8, 333u16),
        (60u8, 570u16),
        (61u8, 570u16),
        (62u8, 570u16),
        (63u8, 500u16),
        (64u8, 930u16),
        (65u8, 722u16),
        (66u8, 667u16),
        (67u8, 722u16),
        (68u8, 722u16),
        (69u8, 667u16),
        (70u8, 611u16),
        (71u8, 778u16),
        (72u8, 778u16),
        (73u8, 389u16),
        (74u8, 500u16),
        (75u8, 778u16),
        (76u8, 667u16),
        (77u8, 944u16),
        (78u8, 722u16),
        (79u8, 778u16),
        (80u8, 611u16),
        (81u8, 778u16),
        (82u8, 722u16),
        (83u8, 556u16),
        (84u8, 667u16),
        (85u8, 722u16),
        (86u8, 722u16),
        (87u8, 1000u16),
        (88u8, 722u16),
        (89u8, 722u16),
        (90u8, 667u16),
        (91u8, 333u16),
        (92u8, 278u16),
        (93u8, 333u16),
        (94u8, 581u16),
        (95u8, 500u16),
        (96u8, 333u16),
        (97u8, 500u16),
        (98u8, 556u16),
        (99u8, 444u16),
        (100u8, 556u16),
        (101u8, 444u16),
        (102u8, 333u16),
        (103u8, 500u16),
        (104u8, 556u16),
        (105u8, 278u16),
        (106u8, 333u16),
        (107u8, 556u16),
        (108u8, 278u16),
        (109u8, 833u16),
        (110u8, 556u16),
        (111u8, 500u16),
        (112u8, 556u16),
        (113u8, 556u16),
        (114u8, 444u16),
        (115u8, 389u16),
        (116u8, 333u16),
        (117u8, 556u16),
        (118u8, 500u16),
        (119u8, 722u16),
        (120u8, 500u16),
        (121u8, 500u16),
        (122u8, 444u16),
        (123u8, 394u16),
        (124u8, 220u16),
        (125u8, 394u16),
        (126u8, 520u16),
    ];
    proof {
        assert(r@ =~= times_bold_pairs_spec());
    }
    r
}

/// Advance widths, per code, for Times-Italic.
pub open spec fn times_italic_pairs_spec() -> Seq<(u8, u16)> {
    seq![
        (32u8, 250u16),
        (33u8, 333u16),
        (34u8, 420u16),
        (35u8, 500u16),
        (36u8, 500u16),
        (37u8, 833u16),
        (38u8, 778u16),
        (39u8, 214u16),
        (40u8, 333u16),
        (41u8, 333u16),
        (42u8, 500u16),
        (43u8, 675u16),
        (44u8, 250u16),
        (45u8, 333u16),
        (46u8, 250u16),
        (47u8, 278u16),
        (48u8, 500u16),
        (49u8, 500u16),
        (50u8, 500u16),
        (51u8, 500u16),
        (52u8, 500u16),
        (53u8, 500u16),
        (54u8, 500u16),
        (55u8, 500u16),
        (56u8, 500u16),
        (57u8, 500u16),
        (58u8, 333u16),
        (59u8, 333u16),
        (60u8, 675u16),
        (61u8, 675u16),
        (62u8, 675u16),
        (63u8, 500u16),
        (64u8, 920u16),
        (65u8, 611u16),
        (66u8, 611u16),
        (67u8, 667u16),
        (68u8, 722u16),
        (69u8, 611u16),
        (70u8, 611u16),
        (71u8, 722u16),
        (72u8, 722u16),
        (73u8, 333u16),
        (74u8, 444u16),
        (75u8, 667u16),
        (76u8, 556u16),
        (77u8, 833u16),
        (78u8, 667u16),
        (79u8, 722u16),
        (80u8, 611u16),
        (81u8, 722u16),
        (82u8, 611u16),
        (83u8, 500u16),
        (84u8, 556u16),
        (85u8, 722u16),
        (86u8, 611u16),
        (87u8, 833u16),
        (88u8, 611u16),
        (89u8, 556u16),
        (90u8, 556u16),
        (91u8, 389u16),
        (92u8, 278u16),
        (93u8, 389u16),
        (94u8, 422u16),
        (95u8, 500u16),
        (96u8, 333u16),
        (97u8, 500u16),
        (98u8, 500u16),
        (99u8, 444u16),
        (100u8, 500u16),
        (101u8, 444u16),
        (102u8, 278u16),
        (103u8, 500u16),
        (104u8, 500u16),
        (105u8, 278u16),
        (106u8, 278u16),
        (107u8, 444u16),
        (108u8, 278u16),
        (109u8, 722u16),
        (110u8, 500u16),
        (111u8, 500u16),
        (112u8, 500u16),
        (113u8, 500u16),
        (114u8, 389u16),
        (115u8, 389u16),
        (116u8, 278u16),
        (117u8, 500u16),
        (118u8, 444u16),
        (119u8, 667u16),
        (120u8, 444u16),
        (121u8, 444u16),
        (122u8, 389u16),
        (123u8, 400u16),
        (124u8, 275u16),
        (125u8, 400u16),
        (126u8, 541u16),
    ]
}

/// Advance widths, per code, for Times-Italic.
pub fn times_italic_pairs() -> (r: Vec<(u8, u16)>)
    ensures
        r@ == times_italic_pairs_spec(),
{
    let r: Vec<(u8, u16)> = vec![
        (32u8, 250u16),
        (33u8, 333u16),
        (34u8, 420u16),
        (35u8, 500u16),
        (36u8, 500u16),
        (37u8, 833u16),
        (38u8, 778u16),
        (39u8, 214u16),
        (40u8, 333u16),
        (41u8, 333u16),
        (42u8, 500u16),
        (43u8, 675u16),
        (44u8, 250u16),
        (45u8, 333u16),
        (46u8, 250u16),
        (47u8, 278u16),
        (48u8, 500u16),
        (49u8, 500u16),
        (50u8, 500u16),
        (51u8, 500u16),
        (52u8, 500u16),
        (53u8, 500u16),
        (54u8, 500u16),
        (55u8, 500u16),
        (56u8, 500u16),
        (57u8, 500u16),
        (58u8, 333u16),
        (59u8, 333u16),
        (60u8, 675u16),
        (61u8, 675u16),
        (62u8, 675u16),
        (63u8, 500u16),
        (64u8, 920u16),
        (65u8, 611u16),
        (66u8, 611u16),
        (67u8, 667u16),
        (68u8, 722u16),
        (69u8, 611u16),
        (70u8, 611u16),
        (71u8, 722u16),
        (72u8, 722u16),
        (73u8, 333u16),
        (74u8, 444u16),
        (75u8, 667u16),
        (76u8, 556u16),
        (77u8, 833u16),
        (78u8, 667u16),
        (79u8, 722u16),
        (80u8, 611u16),
        (81u8, 722u16),
        (82u8, 611u16),
        (83u8, 500u16),
        (84u8, 556u16),
        (85u8, 722u16),
        (86u8, 611u16),
        (87u8, 833u16),
        (88u8, 611u16),
        (89u8, 556u16),
        (90u8, 556u16),
        (91u8, 389u16),
        (92u8, 278u16),
        (93u8, 389u16),
        (94u8, 422u16),
        (95u8, 500u16),
        (96u8, 333u16),
        (97u8, 500u16),
        (98u8, 500u16),
        (99u8, 444u16),
        (100u8, 500u16),
        (101u8, 444u16),
        (102u8, 278u16),
        (103u8, 500u16),
        (104u8, 500u16),
        (105u8, 278u16),
        (106u8, 278u16),
        (107u8, 444u16),
        (108u8, 278u16),
        (109u8, 722u16),
        (110u8, 500u16),
        (111u8, 500u16),
        (112u8, 500u16),
        (113u8, 500u16),
        (114u8, 389u16),
        (115u8, 389u16),
        (116u8, 278u16),
        (117u8, 500u16),
        (118u8, 444u16),
        (119u8, 667u16),
        (120u8, 444u16),
        (121u8, 444u16),
        (122u8, 389u16),
        (123u8, 400u16),
        (124u8, 275u16),
        (125u8, 400u16),
        (126u8, 541u16),
    ];
    proof {
        assert(r@ =~= times_italic_pairs_spec());
    }
    r
}

/// Advance widths, per code, for Times-BoldItalic.
pub open spec fn times_bold_italic_pairs_spec() -> Seq<(u8, u16)> {
    seq![
        (32u8, 250u16),
        (33u8, 389u16),
        (34u8, 555u16),
        (35u8, 500u16),
        (36u8, 500u16),
        (37u8, 833u16),
        (38u8, 778u16),
        (39u8, 278u16),
        (40u8, 333u16),
        (41u8, 333u16),
        (42u8, 500u16),
        (43u8, 570u16),
        (44u8, 250u16),
        (45u8, 333u16),
        (46u8, 250u16),
        (47u8, 278u16),
        (48u8, 500u16),
        (49u8, 500u16),
        (50u8, 500u16),
        (51u8, 500u16),
        (52u8, 500u16),
        (53u8, 500u16),
        (54u8, 500u16),
        (55u8, 500u16),
        (56u8, 500u16),
        (57u8, 500u16),
        (58u8, 333u16),
        (59u8, 333u16),
        (60u8, 570u16),
        (61u8, 570u16),
        (62u8, 570u16),
        (63u8, 500u16),
        (64u8, 832u16),
        (65u8, 667u16),
        (66u8, 667u16),
        (67u8, 667u16),
        (68u8, 722u16),
        (69u8, 667u16),
        (70u8, 667u16),
        (71u8, 722u16),
        (72u8, 778u16),
        (73u8, 389u16),
        (74u8, 500u16),
        (75u8, 667u16),
        (76u8, 611u16),
        (77u8, 889u16),
        (78u8, 722u16),
        (79u8, 722u16),
        (80u8, 611u16),
        (81u8, 722u16),
        (82u8, 667u16),
        (83u8, 556u16),
        (84u8, 611u16),
        (85u8, 722u16),
        (86u8, 667u16),
        (87u8, 889u16),
        (88u8, 667u16),
        (89u8, 611u16),
        (90u8, 611u16),
        (91u8, 333u16),
        (92u8, 278u16),
        (93u8, 333u16),
        (94u8, 570u16),
        (95u8, 500u16),
        (96u8, 333u16),
        (97u8, 500u16),
        (98u8, 500u16),
        (99u8, 444u16),
        (100u8, 500u16),
        (101u8, 444u16),
        (102u8, 333u16),
        (103u8, 500u16),
        (104u8, 556u16),
        (105u8, 278u16),
        (106u8, 278u16),
        (107u8, 500u16),
        (108u8, 278u16),
        (109u8, 778u16),
        (110u8, 556u16),
        (111u8, 500u16),
        (112u8, 500u16),
        (113u8, 500u16),
        (114u8, 389u16),
        (115u8, 389u16),
        (116u8, 278u16),
        (117u8, 556u16),
        (118u8, 444u16),
        (119u8, 667u16),
        (120u8, 500u16),
        (121u8, 444u16),
        (122u8, 389u16),
        (123u8, 348u16),
        (124u8, 220u16),
        (125u8, 348u16),
        (126u8, 570u16),
    ]
}

/// Advance widths, per code, for Times-BoldItalic.
pub fn times_bold_italic_pairs() -> (r: Vec<(u8, u16)>)
    ensures
        r@ == times_bold_italic_pairs_spec(),
{
    let r: Vec<(u8, u16)> = vec![
        (32u8, 250u16),
        (33u8, 389u16),
        (34u8, 555u16),
        (35u8, 500u16),
        (36u8, 500u16),
        (37u8, 833u16),
        (38u8, 778u16),
        (39u8, 278u16),
        (40u8, 333u16),
        (41u8, 333u16),
        (42u8, 500u16),
        (43u8, 570u16),
        (44u8, 250u16),
        (45u8, 333u16),
        (46u8, 250u16),
        (47u8, 278u16),
        (48u8, 500u16),
        (49u8, 500u16),
        (50u8, 500u16),
        (51u8, 500u16),
        (52u8, 500u16),
        (53u8, 500u16),
        (54u8, 500u16),
        (55u8, 500u16),
        (56u8, 500u16),
        (57u8, 500u16),
        (58u8, 333u16),
        (59u8, 333u16),
        (60u8, 570u16),
        (61u8, 570u16),
        (62u8, 570u16),
        (63u8, 500u16),
        (64u8, 832u16),
        (65u8, 667u16),
        (66u8, 667u16),
        (67u8, 667u16),
        (68u8, 722u16),
        (69u8, 667u16),
        (70u8, 667u16),
        (71u8, 722u16),
        (72u8, 778u16),
        (73u8, 389u16),
        (74u8, 500u16),
        (75u8, 667u16),
        (76u8, 611u16),
        (77u8, 889u16),
        (78u8, 722u16),
        (79u8, 722u16),
        (80u8, 611u16),
        (81u8, 722u16),
        (82u8, 667u16),
        (83u8, 556u16),
        (84u8, 611u16),
        (85u8, 722u16),
        (86u8, 667u16),
        (87u8, 889u16),
        (88u8, 667u16),
        (89u8, 611u16),
        (90u8, 611u16),
        (91u8, 333u16),
        (92u8, 278u16),
        (93u8, 333u16),
        (94u8, 570u16),
        (95u8, 500u16),
        (96u8, 333u16),
        (97u8, 500u16),
        (98u8, 500u16),
        (99u8, 444u16),
        (100u8, 500u16),
        (101u8, 444u16),
        (102u8, 333u16),
        (103u8, 500u16),
        (104u8, 556u16),
        (105u8, 278u16),
        (106u8, 278u16),
        (107u8, 500u16),
        (108u8, 278u16),
        (109u8, 778u16),
        (110u8, 556u16),
        (111u8, 500u16),
        (112u8, 500u16),
        (113u8, 500u16),
        (114u8, 389u16),
        (115u8, 389u16),
        (116u8, 278u16),
        (117u8, 556u16),
        (118u8, 444u16),
        (119u8, 667u16),
        (120u8, 500u16),
        (121u8, 444u16),
        (122u8, 389u16),
        (123u8, 348u16),
        (124u8, 220u16),
        (125u8, 348u16),
        (126u8, 570u16),
    ];
    proof {
        assert(r@ =~= times_bold_italic_pairs_spec());
    }
    r
}

/// Advance widths, per code, for Symbol.
pub open spec fn symbol_pairs_spec() -> Seq<(u8, u16)> {
    seq![
        (32u8, 250u16),
        (33u8, 333u16),
        (34u8, 713u16),
        (35u8, 500u16),
        (36u8, 549u16),
        (37u8, 833u16),
        (38u8, 778u16),
        (39u8, 439u16),
        (40u8, 333u16),
        (41u8, 333u16),
        (42u8, 500u16),
        (43u8, 549u16),
        (44u8, 250u16),
        (45u8, 549u16),
        (46u8, 250u16),
        (47u8, 278u16),
        (48u8, 500u16),
        (49u8, 500u16),
        (50u8, 500u16),
        (51u8, 500u16),
        (52u8, 500u16),
        (53u8, 500u16),
        (54u8, 500u16),
        (55u8, 500u16),
        (56u8, 500u16),
        (57u8, 500u16),
        (58u8, 278u16),
        (59u8, 278u16),
        (60u8, 549u16),
        (61u8, 549u16),
        (62u8, 549u16),
        (63u8, 444u16),
        (64u8, 549u16),
        (65u8, 722u16),
        (66u8, 667u16),
        (67u8, 722u16),
        (68u8, 612u16),
        (69u8, 611u16),
        (70u8, 763u16),
        (71u8, 603u16),
        (72u8, 722u16),
        (73u8, 333u16),
        (74u8, 631u16),
        (75u8, 722u16),
        (76u8, 686u16),
        (77u8, 889u16),
        (78u8, 722u16),
        (79u8, 722u16),
        (80u8, 768u16),
        (81u8, 741u16),
        (82u8, 556u16),
        (83u8, 592u16),
        (84u8, 611u16),
        (85u8, 690u16),
        (86u8, 439u16),
        (87u8, 768u16),
        (88u8, 645u16),
        (89u8, 795u16),
        (90u8, 611u16),
        (91u8, 333u16),
        (92u8, 863u16),
        (93u8, 333u16),
        (94u8, 658u16),
        (95u8, 500u16),
        (96u8, 500u16),
        (97u8, 631u16),
        (98u8, 549u16),
        (99u8, 549u16),
        (100u8, 494u16),
        (101u8, 439u16),
        (102u8, 521u16),
        (103u8, 411u16),
        (104u8, 603u16),
        (105u8, 329u16),
        (106u8, 603u16),
        (107u8, 549u16),
        (108u8, 549u16),
        (109u8, 576u16),
        (110u8, 521u16),
        (111u8, 549u16),
        (112u8, 549u16),
        (113u8, 521u16),
        (114u8, 549u16),
        (115u8, 603u16),
        (116u8, 439u16),
        (117u8, 576u16),
        (118u8, 713u16),
        (119u8, 686u16),
        (120u8, 493u16),
        (121u8, 686u16),
        (122u8, 494u16),
        (123u8, 480u16),
        (124u8, 200u16),
        (125u8, 480u16),
        (126u8, 549u16),
    ]
}

/// Advance widths, per code, for Symbol.
pub fn symbol_pairs() -> (r: Vec<(u8, u16)>)
    ensures
        r@ == symbol_pairs_spec(),
{
    let r: Vec<(u8, u16)> = vec![
        (32u8, 250u16),
        (33u8, 333u16),
        (34u8, 713u16),
        (35u8, 500u16),
        (36u8, 549u16),
        (37u8, 833u16),
        (38u8, 778u16),
        (39u8, 439u16),
        (40u8, 333u16),
        (41u8, 333u16),
        (42u8, 500u16),
        (43u8, 549u16),
        (44u8, 250u16),
        (45u8, 549u16),
        (46u8, 250u16),
        (47u8, 278u16),
        (48u8, 500u16),
        (49u8, 500u16),
        (50u8, 500u16),
        (51u8, 500u16),
        (52u8, 500u16),
        (53u8, 500u16),
        (54u8, 500u16),
        (55u8, 500u16),
        (56u8, 500u16),
        (57u8, 500u16),
        (58u8, 278u16),
        (59u8, 278u16),
        (60u8, 549u16),
        (61u8, 549u16),
        (62u8, 549u16),
        (63u8, 444u16),
        (64u8, 549u16),
        (65u8, 722u16),
        (66u8, 667u16),
        (67u8, 722u16),
        (68u8, 612u16),
        (69u8, 611u16),
        (70u8, 763u16),
        (71u8, 603u16),
        (72u8, 722u16),
        (73u8, 333u16),
        (74u8, 631u16),
        (75u8, 722u16),
        (76u8, 686u16),
        (77u8, 889u16),
        (78u8, 722u16),
        (79u8, 722u16),
        (80u8, 768u16),
        (81u8, 741u16),
        (82u8, 556u16),
        (83u8, 592u16),
        (84u8, 611u16),
        (85u8, 690u16),
        (86u8, 439u16),
        (87u8, 768u16),
        (88u8, 645u16),
        (89u8, 795u16),
        (90u8, 611u16),
        (91u8, 333u16),
        (92u8, 863u16),
        (93u8, 333u16),
        (94u8, 658u16),
        (95u8, 500u16),
        (96u8, 500u16),
        (97u8, 631u16),
        (98u8, 549u16),
        (99u8, 549u16),
        (100u8, 494u16),
        (101u8, 439u16),
        (102u8, 521u16),
        (103u8, 411u16),
        (104u8, 603u16),
        (105u8, 329u16),
        (106u8, 603u16),
        (107u8, 549u16),
        (108u8, 549u16),
        (109u8, 576u16),
        (110u8, 521u16),
        (111u8, 549u16),
        (112u8, 549u16),
        (113u8, 521u16),
        (114u8, 549u16),
        (115u8, 603u16),
        (116u8, 439u16),
        (117u8, 576u16),
        (118u8, 713u16),
        (119u8, 686u16),
        (120u8, 493u16),
        (121u8, 686u16),
        (122u8, 494u16),
        (123u8, 480u16),
        (124u8, 200u16),
        (125u8, 480u16),
        (126u8, 549u16),
    ];
    proof {
        assert(r@ =~= symbol_pairs_spec());
    }
    r
}

/// Advance widths, per code, for ZapfDingbats.
pub open spec fn zapf_dingbats_pairs_spec() -> Seq<(u8, u16)> {
    seq![
        (32u8, 278u16),
        (33u8, 974u16),
        (34u8, 961u16),
        (35u8, 974u16),
        (36u8, 980u16),
        (37u8, 719u16),
        (38u8, 789u16),
        (39u8, 790u16),
        (40u8, 791u16),
        (41u8, 690u16),
        (42u8, 960u16),
        (43u8, 939u16),
        (44u8, 549u16),
        (45u8, 855u16),
        (46u8, 911u16),
        (47u8, 933u16),
        (48u8, 911u16),
        (49u8, 945u16),
        (50u8, 974u16),
        (51u8, 755u16),
        (52u8, 846u16),
        (53u8, 762u16),
        (54u8, 761u16),
        (55u8, 571u16),
        (56u8, 677u16),
        (57u8, 763u16),
        (58u8, 760u16),
        (59u8, 759u16),
        (60u8, 754u16),
        (61u8, 494u16),
        (62u8, 552u16),
        (63u8, 537u16),
        (64u8, 577u16),
        (65u8, 692u16),
        (66u8, 786u16),
        (67u8, 788u16),
        (68u8, 788u16),
        (69u8, 790u16),
        (70u8, 793u16),
        (71u8, 794u16),
        (72u8, 816u16),
        (73u8, 823u16),
        (74u8, 789u16),
        (75u8, 841u16),
        (76u8, 823u16),
        (77u8, 833u16),
        (78u8, 816u16),
        (79u8, 831u16),
        (80u8, 923u16),
        (81u8, 744u16),
        (82u8, 723u16),
        (83u8, 749u16),
        (84u8, 790u16),
        (85u8, 792u16),
        (86u8, 695u16),
        (87u8, 776u16),
        (88u8, 768u16),
        (89u8, 792u16),
        (90u8, 759u16),
        (91u8, 707u16),
        (92u8, 708u16),
        (93u8, 682u16),
        (94u8, 701u16),
        (95u8, 826u16),
        (96u8, 815u16),
        (97u8, 789u16),
        (98u8, 789u16),
        (99u8, 707u16),
        (100u8, 687u16),
        (101u8, 696u16),
        (102u8, 689u16),
        (103u8, 786u16),
        (104u8, 787u16),
        (105u8, 713u16),
        (106u8, 791u16),
        (107u8, 785u16),
        (108u8, 791u16),
        (109u8, 873u16),
        (110u8, 761u16),
        (111u8, 762u16),
        (112u8, 762u16),
        (113u8, 759u16),
        (114u8, 759u16),
        (115u8, 892u16),
        (116u8, 892u16),
        (117u8, 788u16),
        (118u8, 784u16),
        (119u8, 438u16),
        (120u8, 138u16),
        (121u8, 277u16),
        (122u8, 415u16),
        (123u8, 392u16),
        (124u8, 392u16),
        (125u8, 668u16),
        (126u8, 668u16),
    ]
}

/// Advance widths, per code, for ZapfDingbats.
pub fn zapf_dingbats_pairs() -> (r: Vec<(u8, u16)>)
    ensures
        r@ == zapf_dingbats_pairs_spec(),
{
    let r: Vec<(u8, u16)> = vec![
        (32u8, 278u16),
        (33u8, 974u16),
        (34u8, 961u16),
        (35u8, 974u16),
        (36u8, 980u16),
        (37u8, 719u16),
        (38u8, 789u16),
        (39u8, 790u16),
        (40u8, 791u16),
        (41u8, 690u16),
        (42u8, 960u16),
        (43u8, 939u16),
        (44u8, 549u16),
        (45u8, 855u16),
        (46u8, 911u16),
        (47u8, 933u16),
        (48u8, 911u16),
        (49u8, 945u16),
        (50u8, 974u16),
        (51u8, 755u16),
        (52u8, 846u16),
        (53u8, 762u16),
        (54u8, 761u16),
        (55u8, 571u16),
        (56u8, 677u16),
        (57u8, 763u16),
        (58u8, 760u16),
        (59u8, 759u16),
        (60u8, 754u16),
        (61u8, 494u16),
        (62u8, 552u16),
        (63u8, 537u16),
        (64u8, 577u16),
        (65u8, 692u16),
        (66u8, 786u16),
        (67u8, 788u16),
        (68u8, 788u16),
        (69u8, 790u16),
        (70u8, 793u16),
        (71u8, 794u16),
        (72u8, 816u16),
        (73u8, 823u16),
        (74u8, 789u16),
        (75u8, 841u16),
        (76u8, 823u16),
        (77u8, 833u16),
        (78u8, 816u16),
        (79u8, 831u16),
        (80u8, 923u16),
        (81u8, 744u16),
        (82u8, 723u16),
        (83u8, 749u16),
        (84u8, 790u16),
        (85u8, 792u16),
        (86u8, 695u16),
        (87u8, 776u16),
        (88u8, 768u16),
        (89u8, 792u16),
        (90u8, 759u16),
        (91u8, 707u16),
        (92u8, 708u16),
        (93u8, 682u16),
        (94u8, 701u16),
        (95u8, 826u16),
        (96u8, 815u16),
        (97u8, 789u16),
        (98u8, 789u16),
        (99u8, 707u16),
        (100u8, 687u16),
        (101u8, 696u16),
        (102u8, 689u16),
        (103u8, 786u16),
        (104u8, 787u16),
        (105u8, 713u16),
        (106u8, 791u16),
        (107u8, 785u16),
        (108u8, 791u16),
        (109u8, 873u16),
        (110u8, 761u16),
        (111u8, 762u16),
        (112u8, 762u16),
        (113u8, 759u16),
        (114u8, 759u16),
        (115u8, 892u16),
        (116u8, 892u16),
        (117u8, 788u16),
        (118u8, 784u16),
        (119u8, 438u16),
        (120u8, 138u16),
        (121u8, 277u16),
        (122u8, 415u16),
        (123u8, 392u16),
        (124u8, 392u16),
        (125u8, 668u16),
        (126u8, 668u16),
    ];
    proof {
        assert(r@ =~= zapf_dingbats_pairs_spec());
    }
    r
}

} // verus!
