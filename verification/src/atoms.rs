//! The utility-class catalog: one constructor per named atom.
//!
//! Every constructor returns a base-phase class-list entry; wrap it in
//! [`crate::stylesheet::hover_`] or [`crate::stylesheet::pressed_`] to defer
//! its mutation to the hover or pressed pass.  Pixel scales follow the usual
//! utility-class convention of four pixels per step.
#![allow(non_snake_case)]

use vstd::prelude::*;
use crate::stylesheet::{Atom, PadEdge, Phase, StyleEntry, Val, rgb_u8, spec_rgb};

verus! {

/// A class-list entry that runs in the base pass.
pub open spec fn spec_base(a: Atom) -> StyleEntry {
    StyleEntry { phase: Phase::Base, atom: a }
}

/// A class-list entry that runs in the base pass.
pub fn base_entry(a: Atom) -> (e: StyleEntry)
    ensures
        e == spec_base(a),
{
    StyleEntry { phase: Phase::Base, atom: a }
}

/// `flex`: display flex.
pub fn flex() -> (e: StyleEntry)
    ensures
        e == spec_base(Atom::Flex),
{
    base_entry(Atom::Flex)
}

/// `flex_col`: main axis down the column.
pub fn flex_col() -> (e: StyleEntry)
    ensures
        e == spec_base(Atom::FlexCol),
{
    base_entry(Atom::FlexCol)
}

/// `flex_row`: main axis along the row.
pub fn flex_row() -> (e: StyleEntry)
    ensures
        e == spec_base(Atom::FlexRow),
{
    base_entry(Atom::FlexRow)
}

/// `w_full`: width 100%.
pub fn w_full() -> (e: StyleEntry)
    ensures
        e == spec_base(Atom::Width(Val::Percent(100))),
{
    base_entry(Atom::Width(Val::Percent(100)))
}

/// `w_12`: width 48px.
pub fn w_12() -> (e: StyleEntry)
    ensures
        e == spec_base(Atom::Width(Val::Px(48))),
{
    base_entry(Atom::Width(Val::Px(48)))
}

/// `w_16`: width 64px.
pub fn w_16() -> (e: StyleEntry)
    ensures
        e == spec_base(Atom::Width(Val::Px(64))),
{
    base_entry(Atom::Width(Val::Px(64)))
}

/// `w_64`: width 256px.
pub fn w_64() -> (e: StyleEntry)
    ensures
        e == spec_base(Atom::Width(Val::Px(256))),
{
    base_entry(Atom::Width(Val::Px(256)))
}

/// `h_full`: height 100%.
pub fn h_full() -> (e: StyleEntry)
    ensures
        e == spec_base(Atom::Height(Val::Percent(100))),
{
    base_entry(Atom::Height(Val::Percent(100)))
}

/// `h_12`: height 48px.
pub fn h_12() -> (e: StyleEntry)
    ensures
        e == spec_base(Atom::Height(Val::Px(48))),
{
    base_entry(Atom::Height(Val::Px(48)))
}

/// `h_16`: height 64px.
pub fn h_16() -> (e: StyleEntry)
    ensures
        e == spec_base(Atom::Height(Val::Px(64))),
{
    base_entry(Atom::Height(Val::Px(64)))
}

/// `h_64`: height 256px.
pub fn h_64() -> (e: StyleEntry)
    ensures
        e == spec_base(Atom::Height(Val::Px(256))),
{
    base_entry(Atom::Height(Val::Px(256)))
}

/// `items_center`: center items on the cross axis.
pub fn items_center() -> (e: StyleEntry)
    ensures
        e == spec_base(Atom::ItemsCenter),
{
    base_entry(Atom::ItemsCenter)
}

/// `items_start`: items at the cross-axis start.
pub fn items_start() -> (e: StyleEntry)
    ensures
        e == spec_base(Atom::ItemsStart),
{
    base_entry(Atom::ItemsStart)
}

/// `items_end`: items at the cross-axis end.
pub fn items_end() -> (e: StyleEntry)
    ensures
        e == spec_base(Atom::ItemsEnd),
{
    base_entry(Atom::ItemsEnd)
}

/// `justify_center`: center items on the main axis.
pub fn justify_center() -> (e: StyleEntry)
    ensures
        e == spec_base(Atom::JustifyCenter),
{
    base_entry(Atom::JustifyCenter)
}

/// `justify_between`: space between items.
pub fn justify_between() -> (e: StyleEntry)
    ensures
        e == spec_base(Atom::JustifyBetween),
{
    base_entry(Atom::JustifyBetween)
}

/// `justify_around`: space around items.
pub fn justify_around() -> (e: StyleEntry)
    ensures
        e == spec_base(Atom::JustifyAround),
{
    base_entry(Atom::JustifyAround)
}

/// `justify_evenly`: even spacing between items.
pub fn justify_evenly() -> (e: StyleEntry)
    ensures
        e == spec_base(Atom::JustifyEvenly),
{
    base_entry(Atom::JustifyEvenly)
}

/// `justify_start`: items at the main-axis start.
pub fn justify_start() -> (e: StyleEntry)
    ensures
        e == spec_base(Atom::JustifyStart),
{
    base_entry(Atom::JustifyStart)
}

/// `justify_end`: items at the main-axis end.
pub fn justify_end() -> (e: StyleEntry)
    ensures
        e == spec_base(Atom::JustifyEnd),
{
    base_entry(Atom::JustifyEnd)
}

/// `text_white`: white text.
pub fn text_white() -> (e: StyleEntry)
    ensures
        e == spec_base(Atom::TextColor(spec_rgb(255, 255, 255))),
{
    base_entry(Atom::TextColor(rgb_u8(255, 255, 255)))
}

/// `text_black`: black text.
pub fn text_black() -> (e: StyleEntry)
    ensures
        e == spec_base(Atom::TextColor(spec_rgb(0, 0, 0))),
{
    base_entry(Atom::TextColor(rgb_u8(0, 0, 0)))
}

/// `bg_white`: white background.
pub fn bg_white() -> (e: StyleEntry)
    ensures
        e == spec_base(Atom::BgColor(spec_rgb(255, 255, 255))),
{
    base_entry(Atom::BgColor(rgb_u8(255, 255, 255)))
}

/// `bg_black`: black background.
pub fn bg_black() -> (e: StyleEntry)
    ensures
        e == spec_base(Atom::BgColor(spec_rgb(0, 0, 0))),
{
    base_entry(Atom::BgColor(rgb_u8(0, 0, 0)))
}

/// `bg_red_50`: background red 50.
pub fn bg_red_50() -> (e: StyleEntry)
    ensures
        e == spec_base(Atom::BgColor(spec_rgb(254, 242, 242))),
{
    base_entry(Atom::BgColor(rgb_u8(254, 242, 242)))
}

/// `bg_red_100`: background red 100.
pub fn bg_red_100() -> (e: StyleEntry)
    ensures
        e == spec_base(Atom::BgColor(spec_rgb(254, 226, 226))),
{
    base_entry(Atom::BgColor(rgb_u8(254, 226, 226)))
}

/// `bg_red_200`: background red 200.
pub fn bg_red_200() -> (e: StyleEntry)
    ensures
        e == spec_base(Atom::BgColor(spec_rgb(254, 202, 202))),
{
    base_entry(Atom::BgColor(rgb_u8(254, 202, 202)))
}

/// `bg_red_300`: background red 300.
pub fn bg_red_300() -> (e: StyleEntry)
    ensures
        e == spec_base(Atom::BgColor(spec_rgb(252, 165, 165))),
{
    base_entry(Atom::BgColor(rgb_u8(252, 165, 165)))
}

/// `bg_red_400`: background red 400.
pub fn bg_red_400() -> (e: StyleEntry)
    ensures
        e == spec_base(Atom::BgColor(spec_rgb(248, 113, 113))),
{
    base_entry(Atom::BgColor(rgb_u8(248, 113, 113)))
}

/// `bg_red_500`: background red 500.
pub fn bg_red_500() -> (e: StyleEntry)
    ensures
        e == spec_base(Atom::BgColor(spec_rgb(239, 68, 68))),
{
    base_entry(Atom::BgColor(rgb_u8(239, 68, 68)))
}

/// `bg_red_600`: background red 600.
pub fn bg_red_600() -> (e: StyleEntry)
    ensures
        e == spec_base(Atom::BgColor(spec_rgb(220, 38, 38))),
{
    base_entry(Atom::BgColor(rgb_u8(220, 38, 38)))
}

/// `bg_red_700`: background red 700.
pub fn bg_red_700() -> (e: StyleEntry)
    ensures
        e == spec_base(Atom::BgColor(spec_rgb(185, 28, 28))),
{
    base_entry(Atom::BgColor(rgb_u8(185, 28, 28)))
}

/// `bg_red_800`: background red 800.
pub fn bg_red_800() -> (e: StyleEntry)
    ensures
        e == spec_base(Atom::BgColor(spec_rgb(153, 27, 27))),
{
    base_entry(Atom::BgColor(rgb_u8(153, 27, 27)))
}

/// `bg_red_900`: background red 900.
pub fn bg_red_900() -> (e: StyleEntry)
    ensures
        e == spec_base(Atom::BgColor(spec_rgb(127, 29, 29))),
{
    base_entry(Atom::BgColor(rgb_u8(127, 29, 29)))
}

/// `bg_red_950`: background red 950.
pub fn bg_red_950() -> (e: StyleEntry)
    ensures
        e == spec_base(Atom::BgColor(spec_rgb(69, 10, 10))),
{
    base_entry(Atom::BgColor(rgb_u8(69, 10, 10)))
}

/// `text_xs`: font size 12px.
pub fn text_xs() -> (e: StyleEntry)
    ensures
        e == spec_base(Atom::TextSize(12)),
{
    base_entry(Atom::TextSize(12))
}

/// `text_sm`: font size 14px.
pub fn text_sm() -> (e: StyleEntry)
    ensures
        e == spec_base(Atom::TextSize(14)),
{
    base_entry(Atom::TextSize(14))
}

/// `text_base`: font size 16px.
pub fn text_base() -> (e: StyleEntry)
    ensures
        e == spec_base(Atom::TextSize(16)),
{
    base_entry(Atom::TextSize(16))
}

/// `text_lg`: font size 18px.
pub fn text_lg() -> (e: StyleEntry)
    ensures
        e == spec_base(Atom::TextSize(18)),
{
    base_entry(Atom::TextSize(18))
}

/// `text_xl`: font size 20px.
pub fn text_xl() -> (e: StyleEntry)
    ensures
        e == spec_base(Atom::TextSize(20)),
{
    base_entry(Atom::TextSize(20))
}

/// `text_2xl`: font size 24px.
pub fn text_2xl() -> (e: StyleEntry)
    ensures
        e == spec_base(Atom::TextSize(24)),
{
    base_entry(Atom::TextSize(24))
}

/// `text_3xl`: font size 30px.
pub fn text_3xl() -> (e: StyleEntry)
    ensures
        e == spec_base(Atom::TextSize(30)),
{
    base_entry(Atom::TextSize(30))
}

/// `text_4xl`: font size 36px.
pub fn text_4xl() -> (e: StyleEntry)
    ensures
        e == spec_base(Atom::TextSize(36)),
{
    base_entry(Atom::TextSize(36))
}

/// `text_5xl`: font size 48px.
pub fn text_5xl() -> (e: StyleEntry)
    ensures
        e == spec_base(Atom::TextSize(48)),
{
    base_entry(Atom::TextSize(48))
}

/// `text_6xl`: font size 60px.
pub fn text_6xl() -> (e: StyleEntry)
    ensures
        e == spec_base(Atom::TextSize(60)),
{
    base_entry(Atom::TextSize(60))
}

/// `text_7xl`: font size 72px.
pub fn text_7xl() -> (e: StyleEntry)
    ensures
        e == spec_base(Atom::TextSize(72)),
{
    base_entry(Atom::TextSize(72))
}

/// `text_8xl`: font size 96px.
pub fn text_8xl() -> (e: StyleEntry)
    ensures
        e == spec_base(Atom::TextSize(96)),
{
    base_entry(Atom::TextSize(96))
}

/// `text_9xl`: font size 128px.
pub fn text_9xl() -> (e: StyleEntry)
    ensures
        e == spec_base(Atom::TextSize(128)),
{
    base_entry(Atom::TextSize(128))
}

/// `visible`: visibility follows the parent.
pub fn visible() -> (e: StyleEntry)
    ensures
        e == spec_base(Atom::Visible),
{
    base_entry(Atom::Visible)
}

/// `invisible`: hidden.
pub fn invisible() -> (e: StyleEntry)
    ensures
        e == spec_base(Atom::Invisible),
{
    base_entry(Atom::Invisible)
}

/// `always_visible`: visible whatever the parent is.
pub fn always_visible() -> (e: StyleEntry)
    ensures
        e == spec_base(Atom::AlwaysVisible),
{
    base_entry(Atom::AlwaysVisible)
}

/// `p_0`: padding on every edge of 0px.
pub fn p_0() -> (e: StyleEntry)
    ensures
        e == spec_base(Atom::Padding(PadEdge::All, 0)),
{
    base_entry(Atom::Padding(PadEdge::All, 0))
}

/// `p_1`: padding on every edge of 4px.
pub fn p_1() -> (e: StyleEntry)
    ensures
        e == spec_base(Atom::Padding(PadEdge::All, 4)),
{
    base_entry(Atom::Padding(PadEdge::All, 4))
}

/// `p_1p5`: padding on every edge of 6px.
pub fn p_1p5() -> (e: StyleEntry)
    ensures
        e == spec_base(Atom::Padding(PadEdge::All, 6)),
{
    base_entry(Atom::Padding(PadEdge::All, 6))
}

/// `p_2`: padding on every edge of 8px.
pub fn p_2() -> (e: StyleEntry)
    ensures
        e == spec_base(Atom::Padding(PadEdge::All, 8)),
{
    base_entry(Atom::Padding(PadEdge::All, 8))
}

/// `p_2p5`: padding on every edge of 10px.
pub fn p_2p5() -> (e: StyleEntry)
    ensures
        e == spec_base(Atom::Padding(PadEdge::All, 10)),
{
    base_entry(Atom::Padding(PadEdge::All, 10))
}

/// `p_3`: padding on every edge of 12px.
pub fn p_3() -> (e: StyleEntry)
    ensures
        e == spec_base(Atom::Padding(PadEdge::All, 12)),
{
    base_entry(Atom::Padding(PadEdge::All, 12))
}

/// `p_3p5`: padding on every edge of 14px.
pub fn p_3p5() -> (e: StyleEntry)
    ensures
        e == spec_base(Atom::Padding(PadEdge::All, 14)),
{
    base_entry(Atom::Padding(PadEdge::All, 14))
}

/// `p_4`: padding on every edge of 16px.
pub fn p_4() -> (e: StyleEntry)
    ensures
        e == spec_base(Atom::Padding(PadEdge::All, 16)),
{
    base_entry(Atom::Padding(PadEdge::All, 16))
}

/// `p_5`: padding on every edge of 20px.
pub fn p_5() -> (e: StyleEntry)
    ensures
        e == spec_base(Atom::Padding(PadEdge::All, 20)),
{
    base_entry(Atom::Padding(PadEdge::All, 20))
}

/// `p_6`: padding on every edge of 24px.
pub fn p_6() -> (e: StyleEntry)
    ensures
        e == spec_base(Atom::Padding(PadEdge::All, 24)),
{
    base_entry(Atom::Padding(PadEdge::All, 24))
}

/// `p_7`: padding on every edge of 28px.
pub fn p_7() -> (e: StyleEntry)
    ensures
        e == spec_base(Atom::Padding(PadEdge::All, 28)),
{
    base_entry(Atom::Padding(PadEdge::All, 28))
}

/// `p_8`: padding on every edge of 32px.
pub fn p_8() -> (e: StyleEntry)
    ensures
        e == spec_base(Atom::Padding(PadEdge::All, 32)),
{
    base_entry(Atom::Padding(PadEdge::All, 32))
}

/// `p_9`: padding on every edge of 36px.
pub fn p_9() -> (e: StyleEntry)
    ensures
        e == spec_base(Atom::Padding(PadEdge::All, 36)),
{
    base_entry(Atom::Padding(PadEdge::All, 36))
}

/// `p_10`: padding on every edge of 40px.
pub fn p_10() -> (e: StyleEntry)
    ensures
        e == spec_base(Atom::Padding(PadEdge::All, 40)),
{
    base_entry(Atom::Padding(PadEdge::All, 40))
}

/// `p_11`: padding on every edge of 44px.
pub fn p_11() -> (e: StyleEntry)
    ensures
        e == spec_base(Atom::Padding(PadEdge::All, 44)),
{
    base_entry(Atom::Padding(PadEdge::All, 44))
}

/// `p_12`: padding on every edge of 48px.
pub fn p_12() -> (e: StyleEntry)
    ensures
        e == spec_base(Atom::Padding(PadEdge::All, 48)),
{
    base_entry(Atom::Padding(PadEdge::All, 48))
}

/// `p_14`: padding on every edge of 56px.
pub fn p_14() -> (e: StyleEntry)
    ensures
        e == spec_base(Atom::Padding(PadEdge::All, 56)),
{
    base_entry(Atom::Padding(PadEdge::All, 56))
}

/// `p_16`: padding on every edge of 64px.
pub fn p_16() -> (e: StyleEntry)
    ensures
        e == spec_base(Atom::Padding(PadEdge::All, 64)),
{
    base_entry(Atom::Padding(PadEdge::All, 64))
}

/// `p_20`: padding on every edge of 80px.
pub fn p_20() -> (e: StyleEntry)
    ensures
        e == spec_base(Atom::Padding(PadEdge::All, 80)),
{
    base_entry(Atom::Padding(PadEdge::All, 80))
}

/// `p_24`: padding on every edge of 96px.
pub fn p_24() -> (e: StyleEntry)
    ensures
        e == spec_base(Atom::Padding(PadEdge::All, 96)),
{
    base_entry(Atom::Padding(PadEdge::All, 96))
}

/// `p_28`: padding on every edge of 112px.
pub fn p_28() -> (e: StyleEntry)
    ensures
        e == spec_base(Atom::Padding(PadEdge::All, 112)),
{
    base_entry(Atom::Padding(PadEdge::All, 112))
}

/// `p_32`: padding on every edge of 128px.
pub fn p_32() -> (e: StyleEntry)
    ensures
        e == spec_base(Atom::Padding(PadEdge::All, 128)),
{
    base_entry(Atom::Padding(PadEdge::All, 128))
}

/// `p_36`: padding on every edge of 144px.
pub fn p_36() -> (e: StyleEntry)
    ensures
        e == spec_base(Atom::Padding(PadEdge::All, 144)),
{
    base_entry(Atom::Padding(PadEdge::All, 144))
}

/// `p_40`: padding on every edge of 160px.
pub fn p_40() -> (e: StyleEntry)
    ensures
        e == spec_base(Atom::Padding(PadEdge::All, 160)),
{
    base_entry(Atom::Padding(PadEdge::All, 160))
}

/// `p_44`: padding on every edge of 176px.
pub fn p_44() -> (e: StyleEntry)
    ensures
        e == spec_base(Atom::Padding(PadEdge::All, 176)),
{
    base_entry(Atom::Padding(PadEdge::All, 176))
}

/// `p_48`: padding on every edge of 192px.
pub fn p_48() -> (e: StyleEntry)
    ensures
        e == spec_base(Atom::Padding(PadEdge::All, 192)),
{
    base_entry(Atom::Padding(PadEdge::All, 192))
}

/// `p_52`: padding on every edge of 208px.
pub fn p_52() -> (e: StyleEntry)
    ensures
        e == spec_base(Atom::Padding(PadEdge::All, 208)),
{
    base_entry(Atom::Padding(PadEdge::All, 208))
}

/// `p_56`: padding on every edge of 224px.
pub fn p_56() -> (e: StyleEntry)
    ensures
        e == spec_base(Atom::Padding(PadEdge::All, 224)),
{
    base_entry(Atom::Padding(PadEdge::All, 224))
}

/// `p_60`: padding on every edge of 240px.
pub fn p_60() -> (e: StyleEntry)
    ensures
        e == spec_base(Atom::Padding(PadEdge::All, 240)),
{
    base_entry(Atom::Padding(PadEdge::All, 240))
}

/// `p_64`: padding on every edge of 256px.
pub fn p_64() -> (e: StyleEntry)
    ensures
        e == spec_base(Atom::Padding(PadEdge::All, 256)),
{
    base_entry(Atom::Padding(PadEdge::All, 256))
}

/// `p_72`: padding on every edge of 288px.
pub fn p_72() -> (e: StyleEntry)
    ensures
        e == spec_base(Atom::Padding(PadEdge::All, 288)),
{
    base_entry(Atom::Padding(PadEdge::All, 288))
}

/// `p_80`: padding on every edge of 320px.
pub fn p_80() -> (e: StyleEntry)
    ensures
        e == spec_base(Atom::Padding(PadEdge::All, 320)),
{
    base_entry(Atom::Padding(PadEdge::All, 320))
}

/// `p_96`: padding on every edge of 384px.
pub fn p_96() -> (e: StyleEntry)
    ensures
        e == spec_base(Atom::Padding(PadEdge::All, 384)),
{
    base_entry(Atom::Padding(PadEdge::All, 384))
}

/// `pl_0`: left padding of 0px.
pub fn pl_0() -> (e: StyleEntry)
    ensures
        e == spec_base(Atom::Padding(PadEdge::Left, 0)),
{
    base_entry(Atom::Padding(PadEdge::Left, 0))
}

/// `pl_1`: left padding of 4px.
pub fn pl_1() -> (e: StyleEntry)
    ensures
        e == spec_base(Atom::Padding(PadEdge::Left, 4)),
{
    base_entry(Atom::Padding(PadEdge::Left, 4))
}

/// `pl_1p5`: left padding of 6px.
pub fn pl_1p5() -> (e: StyleEntry)
    ensures
        e == spec_base(Atom::Padding(PadEdge::Left, 6)),
{
    base_entry(Atom::Padding(PadEdge::Left, 6))
}

/// `pl_2`: left padding of 8px.
pub fn pl_2() -> (e: StyleEntry)
    ensures
        e == spec_base(Atom::Padding(PadEdge::Left, 8)),
{
    base_entry(Atom::Padding(PadEdge::Left, 8))
}

/// `pl_2p5`: left padding of 10px.
pub fn pl_2p5() -> (e: StyleEntry)
    ensures
        e == spec_base(Atom::Padding(PadEdge::Left, 10)),
{
    base_entry(Atom::Padding(PadEdge::Left, 10))
}

/// `pl_3`: left padding of 12px.
pub fn pl_3() -> (e: StyleEntry)
    ensures
        e == spec_base(Atom::Padding(PadEdge::Left, 12)),
{
    base_entry(Atom::Padding(PadEdge::Left, 12))
}

/// `pl_3p5`: left padding of 14px.
pub fn pl_3p5() -> (e: StyleEntry)
    ensures
        e == spec_base(Atom::Padding(PadEdge::Left, 14)),
{
    base_entry(Atom::Padding(PadEdge::Left, 14))
}

/// `pl_4`: left padding of 16px.
pub fn pl_4() -> (e: StyleEntry)
    ensures
        e == spec_base(Atom::Padding(PadEdge::Left, 16)),
{
    base_entry(Atom::Padding(PadEdge::Left, 16))
}

/// `pl_5`: left padding of 20px.
pub fn pl_5() -> (e: StyleEntry)
    ensures
        e == spec_base(Atom::Padding(PadEdge::Left, 20)),
{
    base_entry(Atom::Padding(PadEdge::Left, 20))
}

/// `pl_6`: left padding of 24px.
pub fn pl_6() -> (e: StyleEntry)
    ensures
        e == spec_base(Atom::Padding(PadEdge::Left, 24)),
{
    base_entry(Atom::Padding(PadEdge::Left, 24))
}

/// `pl_7`: left padding of 28px.
pub fn pl_7() -> (e: StyleEntry)
    ensures
        e == spec_base(Atom::Padding(PadEdge::Left, 28)),
{
    base_entry(Atom::Padding(PadEdge::Left, 28))
}

/// `pl_8`: left padding of 32px.
pub fn pl_8() -> (e: StyleEntry)
    ensures
        e == spec_base(Atom::Padding(PadEdge::Left, 32)),
{
    base_entry(Atom::Padding(PadEdge::Left, 32))
}

/// `pl_9`: left padding of 36px.
pub fn pl_9() -> (e: StyleEntry)
    ensures
        e == spec_base(Atom::Padding(PadEdge::Left, 36)),
{
    base_entry(Atom::Padding(PadEdge::Left, 36))
}

/// `pl_10`: left padding of 40px.
pub fn pl_10() -> (e: StyleEntry)
    ensures
        e == spec_base(Atom::Padding(PadEdge::Left, 40)),
{
    base_entry(Atom::Padding(PadEdge::Left, 40))
}

/// `pl_11`: left padding of 44px.
pub fn pl_11() -> (e: StyleEntry)
    ensures
        e == spec_base(Atom::Padding(PadEdge::Left, 44)),
{
    base_entry(Atom::Padding(PadEdge::Left, 44))
}

/// `pl_12`: left padding of 48px.
pub fn pl_12() -> (e: StyleEntry)
    ensures
        e == spec_base(Atom::Padding(PadEdge::Left, 48)),
{
    base_entry(Atom::Padding(PadEdge::Left, 48))
}

/// `pl_14`: left padding of 56px.
pub fn pl_14() -> (e: StyleEntry)
    ensures
        e == spec_base(Atom::Padding(PadEdge::Left, 56)),
{
    base_entry(Atom::Padding(PadEdge::Left, 56))
}

/// `pl_16`: left padding of 64px.
pub fn pl_16() -> (e: StyleEntry)
    ensures
        e == spec_base(Atom::Padding(PadEdge::Left, 64)),
{
    base_entry(Atom::Padding(PadEdge::Left, 64))
}

/// `pl_20`: left padding of 80px.
pub fn pl_20() -> (e: StyleEntry)
    ensures
        e == spec_base(Atom::Padding(PadEdge::Left, 80)),
{
    base_entry(Atom::Padding(PadEdge::Left, 80))
}

/// `pl_24`: left padding of 96px.
pub fn pl_24() -> (e: StyleEntry)
    ensures
        e == spec_base(Atom::Padding(PadEdge::Left, 96)),
{
    base_entry(Atom::Padding(PadEdge::Left, 96))
}

/// `pl_28`: left padding of 112px.
pub fn pl_28() -> (e: StyleEntry)
    ensures
        e == spec_base(Atom::Padding(PadEdge::Left, 112)),
{
    base_entry(Atom::Padding(PadEdge::Left, 112))
}

/// `pl_32`: left padding of 128px.
pub fn pl_32() -> (e: StyleEntry)
    ensures
        e == spec_base(Atom::Padding(PadEdge::Left, 128)),
{
    base_entry(Atom::Padding(PadEdge::Left, 128))
}

/// `pl_36`: left padding of 144px.
pub fn pl_36() -> (e: StyleEntry)
    ensures
        e == spec_base(Atom::Padding(PadEdge::Left, 144)),
{
    base_entry(Atom::Padding(PadEdge::Left, 144))
}

/// `pl_40`: left padding of 160px.
pub fn pl_40() -> (e: StyleEntry)
    ensures
        e == spec_base(Atom::Padding(PadEdge::Left, 160)),
{
    base_entry(Atom::Padding(PadEdge::Left, 160))
}

/// `pl_44`: left padding of 176px.
pub fn pl_44() -> (e: StyleEntry)
    ensures
        e == spec_base(Atom::Padding(PadEdge::Left, 176)),
{
    base_entry(Atom::Padding(PadEdge::Left, 176))
}

/// `pl_48`: left padding of 192px.
pub fn pl_48() -> (e: StyleEntry)
    ensures
        e == spec_base(Atom::Padding(PadEdge::Left, 192)),
{
    base_entry(Atom::Padding(PadEdge::Left, 192))
}

/// `pl_52`: left padding of 208px.
pub fn pl_52() -> (e: StyleEntry)
    ensures
        e == spec_base(Atom::Padding(PadEdge::Left, 208)),
{
    base_entry(Atom::Padding(PadEdge::Left, 208))
}

/// `pl_56`: left padding of 224px.
pub fn pl_56() -> (e: StyleEntry)
    ensures
        e == spec_base(Atom::Padding(PadEdge::Left, 224)),
{
    base_entry(Atom::Padding(PadEdge::Left, 224))
}

/// `pl_60`: left padding of 240px.
pub fn pl_60() -> (e: StyleEntry)
    ensures
        e == spec_base(Atom::Padding(PadEdge::Left, 240)),
{
    base_entry(Atom::Padding(PadEdge::Left, 240))
}

/// `pl_64`: left padding of 256px.
pub fn pl_64() -> (e: StyleEntry)
    ensures
        e == spec_base(Atom::Padding(PadEdge::Left, 256)),
{
    base_entry(Atom::Padding(PadEdge::Left, 256))
}

/// `pl_72`: left padding of 288px.
pub fn pl_72() -> (e: StyleEntry)
    ensures
        e == spec_base(Atom::Padding(PadEdge::Left, 288)),
{
    base_entry(Atom::Padding(PadEdge::Left, 288))
}

/// `pl_80`: left padding of 320px.
pub fn pl_80() -> (e: StyleEntry)
    ensures
        e == spec_base(Atom::Padding(PadEdge::Left, 320)),
{
    base_entry(Atom::Padding(PadEdge::Left, 320))
}

/// `pl_96`: left padding of 384px.
pub fn pl_96() -> (e: StyleEntry)
    ensures
        e == spec_base(Atom::Padding(PadEdge::Left, 384)),
{
    base_entry(Atom::Padding(PadEdge::Left, 384))
}

/// `pr_0`: right padding of 0px.
pub fn pr_0() -> (e: StyleEntry)
    ensures
        e == spec_base(Atom::Padding(PadEdge::Right, 0)),
{
    base_entry(Atom::Padding(PadEdge::Right, 0))
}

/// `pr_1`: right padding of 4px.
pub fn pr_1() -> (e: StyleEntry)
    ensures
        e == spec_base(Atom::Padding(PadEdge::Right, 4)),
{
    base_entry(Atom::Padding(PadEdge::Right, 4))
}

/// `pr_1p5`: right padding of 6px.
pub fn pr_1p5() -> (e: StyleEntry)
    ensures
        e == spec_base(Atom::Padding(PadEdge::Right, 6)),
{
    base_entry(Atom::Padding(PadEdge::Right, 6))
}

/// `pr_2`: right padding of 8px.
pub fn pr_2() -> (e: StyleEntry)
    ensures
        e == spec_base(Atom::Padding(PadEdge::Right, 8)),
{
    base_entry(Atom::Padding(PadEdge::Right, 8))
}

/// `pr_2p5`: right padding of 10px.
pub fn pr_2p5() -> (e: StyleEntry)
    ensures
        e == spec_base(Atom::Padding(PadEdge::Right, 10)),
{
    base_entry(Atom::Padding(PadEdge::Right, 10))
}

/// `pr_3`: right padding of 12px.
pub fn pr_3() -> (e: StyleEntry)
    ensures
        e == spec_base(Atom::Padding(PadEdge::Right, 12)),
{
    base_entry(Atom::Padding(PadEdge::Right, 12))
}

/// `pr_3p5`: right padding of 14px.
pub fn pr_3p5() -> (e: StyleEntry)
    ensures
        e == spec_base(Atom::Padding(PadEdge::Right, 14)),
{
    base_entry(Atom::Padding(PadEdge::Right, 14))
}

/// `pr_4`: right padding of 16px.
pub fn pr_4() -> (e: StyleEntry)
    ensures
        e == spec_base(Atom::Padding(PadEdge::Right, 16)),
{
    base_entry(Atom::Padding(PadEdge::Right, 16))
}

/// `pr_5`: right padding of 20px.
pub fn pr_5() -> (e: StyleEntry)
    ensures
        e == spec_base(Atom::Padding(PadEdge::Right, 20)),
{
    base_entry(Atom::Padding(PadEdge::Right, 20))
}

/// `pr_6`: right padding of 24px.
pub fn pr_6() -> (e: StyleEntry)
    ensures
        e == spec_base(Atom::Padding(PadEdge::Right, 24)),
{
    base_entry(Atom::Padding(PadEdge::Right, 24))
}

/// `pr_7`: right padding of 28px.
pub fn pr_7() -> (e: StyleEntry)
    ensures
        e == spec_base(Atom::Padding(PadEdge::Right, 28)),
{
    base_entry(Atom::Padding(PadEdge::Right, 28))
}

/// `pr_8`: right padding of 32px.
pub fn pr_8() -> (e: StyleEntry)
    ensures
        e == spec_base(Atom::Padding(PadEdge::Right, 32)),
{
    base_entry(Atom::Padding(PadEdge::Right, 32))
}

/// `pr_9`: right padding of 36px.
pub fn pr_9() -> (e: StyleEntry)
    ensures
        e == spec_base(Atom::Padding(PadEdge::Right, 36)),
{
    base_entry(Atom::Padding(PadEdge::Right, 36))
}

/// `pr_10`: right padding of 40px.
pub fn pr_10() -> (e: StyleEntry)
    ensures
        e == spec_base(Atom::Padding(PadEdge::Right, 40)),
{
    base_entry(Atom::Padding(PadEdge::Right, 40))
}

/// `pr_11`: right padding of 44px.
pub fn pr_11() -> (e: StyleEntry)
    ensures
        e == spec_base(Atom::Padding(PadEdge::Right, 44)),
{
    base_entry(Atom::Padding(PadEdge::Right, 44))
}

/// `pr_12`: right padding of 48px.
pub fn pr_12() -> (e: StyleEntry)
    ensures
        e == spec_base(Atom::Padding(PadEdge::Right, 48)),
{
    base_entry(Atom::Padding(PadEdge::Right, 48))
}

/// `pr_14`: right padding of 56px.
pub fn pr_14() -> (e: StyleEntry)
    ensures
        e == spec_base(Atom::Padding(PadEdge::Right, 56)),
{
    base_entry(Atom::Padding(PadEdge::Right, 56))
}

/// `pr_16`: right padding of 64px.
pub fn pr_16() -> (e: StyleEntry)
    ensures
        e == spec_base(Atom::Padding(PadEdge::Right, 64)),
{
    base_entry(Atom::Padding(PadEdge::Right, 64))
}

/// `pr_20`: right padding of 80px.
pub fn pr_20() -> (e: StyleEntry)
    ensures
        e == spec_base(Atom::Padding(PadEdge::Right, 80)),
{
    base_entry(Atom::Padding(PadEdge::Right, 80))
}

/// `pr_24`: right padding of 96px.
pub fn pr_24() -> (e: StyleEntry)
    ensures
        e == spec_base(Atom::Padding(PadEdge::Right, 96)),
{
    base_entry(Atom::Padding(PadEdge::Right, 96))
}

/// `pr_28`: right padding of 112px.
pub fn pr_28() -> (e: StyleEntry)
    ensures
        e == spec_base(Atom::Padding(PadEdge::Right, 112)),
{
    base_entry(Atom::Padding(PadEdge::Right, 112))
}

/// `pr_32`: right padding of 128px.
pub fn pr_32() -> (e: StyleEntry)
    ensures
        e == spec_base(Atom::Padding(PadEdge::Right, 128)),
{
    base_entry(Atom::Padding(PadEdge::Right, 128))
}

/// `pr_36`: right padding of 144px.
pub fn pr_36() -> (e: StyleEntry)
    ensures
        e == spec_base(Atom::Padding(PadEdge::Right, 144)),
{
    base_entry(Atom::Padding(PadEdge::Right, 144))
}

/// `pr_40`: right padding of 160px.
pub fn pr_40() -> (e: StyleEntry)
    ensures
        e == spec_base(Atom::Padding(PadEdge::Right, 160)),
{
    base_entry(Atom::Padding(PadEdge::Right, 160))
}

/// `pr_44`: right padding of 176px.
pub fn pr_44() -> (e: StyleEntry)
    ensures
        e == spec_base(Atom::Padding(PadEdge::Right, 176)),
{
    base_entry(Atom::Padding(PadEdge::Right, 176))
}

/// `pr_48`: right padding of 192px.
pub fn pr_48() -> (e: StyleEntry)
    ensures
        e == spec_base(Atom::Padding(PadEdge::Right, 192)),
{
    base_entry(Atom::Padding(PadEdge::Right, 192))
}

/// `pr_52`: right padding of 208px.
pub fn pr_52() -> (e: StyleEntry)
    ensures
        e == spec_base(Atom::Padding(PadEdge::Right, 208)),
{
    base_entry(Atom::Padding(PadEdge::Right, 208))
}

/// `pr_56`: right padding of 224px.
pub fn pr_56() -> (e: StyleEntry)
    ensures
        e == spec_base(Atom::Padding(PadEdge::Right, 224)),
{
    base_entry(Atom::Padding(PadEdge::Right, 224))
}

/// `pr_60`: right padding of 240px.
pub fn pr_60() -> (e: StyleEntry)
    ensures
        e == spec_base(Atom::Padding(PadEdge::Right, 240)),
{
    base_entry(Atom::Padding(PadEdge::Right, 240))
}

/// `pr_64`: right padding of 256px.
pub fn pr_64() -> (e: StyleEntry)
    ensures
        e == spec_base(Atom::Padding(PadEdge::Right, 256)),
{
    base_entry(Atom::Padding(PadEdge::Right, 256))
}

/// `pr_72`: right padding of 288px.
pub fn pr_72() -> (e: StyleEntry)
    ensures
        e == spec_base(Atom::Padding(PadEdge::Right, 288)),
{
    base_entry(Atom::Padding(PadEdge::Right, 288))
}

/// `pr_80`: right padding of 320px.
pub fn pr_80() -> (e: StyleEntry)
    ensures
        e == spec_base(Atom::Padding(PadEdge::Right, 320)),
{
    base_entry(Atom::Padding(PadEdge::Right, 320))
}

/// `pr_96`: right padding of 384px.
pub fn pr_96() -> (e: StyleEntry)
    ensures
        e == spec_base(Atom::Padding(PadEdge::Right, 384)),
{
    base_entry(Atom::Padding(PadEdge::Right, 384))
}

/// `pt_0`: top padding of 0px.
pub fn pt_0() -> (e: StyleEntry)
    ensures
        e == spec_base(Atom::Padding(PadEdge::Top, 0)),
{
    base_entry(Atom::Padding(PadEdge::Top, 0))
}

/// `pt_1`: top padding of 4px.
pub fn pt_1() -> (e: StyleEntry)
    ensures
        e == spec_base(Atom::Padding(PadEdge::Top, 4)),
{
    base_entry(Atom::Padding(PadEdge::Top, 4))
}

/// `pt_1p5`: top padding of 6px.
pub fn pt_1p5() -> (e: StyleEntry)
    ensures
        e == spec_base(Atom::Padding(PadEdge::Top, 6)),
{
    base_entry(Atom::Padding(PadEdge::Top, 6))
}

/// `pt_2`: top padding of 8px.
pub fn pt_2() -> (e: StyleEntry)
    ensures
        e == spec_base(Atom::Padding(PadEdge::Top, 8)),
{
    base_entry(Atom::Padding(PadEdge::Top, 8))
}

/// `pt_2p5`: top padding of 10px.
pub fn pt_2p5() -> (e: StyleEntry)
    ensures
        e == spec_base(Atom::Padding(PadEdge::Top, 10)),
{
    base_entry(Atom::Padding(PadEdge::Top, 10))
}

/// `pt_3`: top padding of 12px.
pub fn pt_3() -> (e: StyleEntry)
    ensures
        e == spec_base(Atom::Padding(PadEdge::Top, 12)),
{
    base_entry(Atom::Padding(PadEdge::Top, 12))
}

/// `pt_3p5`: top padding of 14px.
pub fn pt_3p5() -> (e: StyleEntry)
    ensures
        e == spec_base(Atom::Padding(PadEdge::Top, 14)),
{
    base_entry(Atom::Padding(PadEdge::Top, 14))
}

/// `pt_4`: top padding of 16px.
pub fn pt_4() -> (e: StyleEntry)
    ensures
        e == spec_base(Atom::Padding(PadEdge::Top, 16)),
{
    base_entry(Atom::Padding(PadEdge::Top, 16))
}

/// `pt_5`: top padding of 20px.
pub fn pt_5() -> (e: StyleEntry)
    ensures
        e == spec_base(Atom::Padding(PadEdge::Top, 20)),
{
    base_entry(Atom::Padding(PadEdge::Top, 20))
}

/// `pt_6`: top padding of 24px.
pub fn pt_6() -> (e: StyleEntry)
    ensures
        e == spec_base(Atom::Padding(PadEdge::Top, 24)),
{
    base_entry(Atom::Padding(PadEdge::Top, 24))
}

/// `pt_7`: top padding of 28px.
pub fn pt_7() -> (e: StyleEntry)
    ensures
        e == spec_base(Atom::Padding(PadEdge::Top, 28)),
{
    base_entry(Atom::Padding(PadEdge::Top, 28))
}

/// `pt_8`: top padding of 32px.
pub fn pt_8() -> (e: StyleEntry)
    ensures
        e == spec_base(Atom::Padding(PadEdge::Top, 32)),
{
    base_entry(Atom::Padding(PadEdge::Top, 32))
}

/// `pt_9`: top padding of 36px.
pub fn pt_9() -> (e: StyleEntry)
    ensures
        e == spec_base(Atom::Padding(PadEdge::Top, 36)),
{
    base_entry(Atom::Padding(PadEdge::Top, 36))
}

/// `pt_10`: top padding of 40px.
pub fn pt_10() -> (e: StyleEntry)
    ensures
        e == spec_base(Atom::Padding(PadEdge::Top, 40)),
{
    base_entry(Atom::Padding(PadEdge::Top, 40))
}

/// `pt_11`: top padding of 44px.
pub fn pt_11() -> (e: StyleEntry)
    ensures
        e == spec_base(Atom::Padding(PadEdge::Top, 44)),
{
    base_entry(Atom::Padding(PadEdge::Top, 44))
}

/// `pt_12`: top padding of 48px.
pub fn pt_12() -> (e: StyleEntry)
    ensures
        e == spec_base(Atom::Padding(PadEdge::Top, 48)),
{
    base_entry(Atom::Padding(PadEdge::Top, 48))
}

/// `pt_14`: top padding of 56px.
pub fn pt_14() -> (e: StyleEntry)
    ensures
        e == spec_base(Atom::Padding(PadEdge::Top, 56)),
{
    base_entry(Atom::Padding(PadEdge::Top, 56))
}

/// `pt_16`: top padding of 64px.
pub fn pt_16() -> (e: StyleEntry)
    ensures
        e == spec_base(Atom::Padding(PadEdge::Top, 64)),
{
    base_entry(Atom::Padding(PadEdge::Top, 64))
}

/// `pt_20`: top padding of 80px.
pub fn pt_20() -> (e: StyleEntry)
    ensures
        e == spec_base(Atom::Padding(PadEdge::Top, 80)),
{
    base_entry(Atom::Padding(PadEdge::Top, 80))
}

/// `pt_24`: top padding of 96px.
pub fn pt_24() -> (e: StyleEntry)
    ensures
        e == spec_base(Atom::Padding(PadEdge::Top, 96)),
{
    base_entry(Atom::Padding(PadEdge::Top, 96))
}

/// `pt_28`: top padding of 112px.
pub fn pt_28() -> (e: StyleEntry)
    ensures
        e == spec_base(Atom::Padding(PadEdge::Top, 112)),
{
    base_entry(Atom::Padding(PadEdge::Top, 112))
}

/// `pt_32`: top padding of 128px.
pub fn pt_32() -> (e: StyleEntry)
    ensures
        e == spec_base(Atom::Padding(PadEdge::Top, 128)),
{
    base_entry(Atom::Padding(PadEdge::Top, 128))
}

/// `pt_36`: top padding of 144px.
pub fn pt_36() -> (e: StyleEntry)
    ensures
        e == spec_base(Atom::Padding(PadEdge::Top, 144)),
{
    base_entry(Atom::Padding(PadEdge::Top, 144))
}

/// `pt_40`: top padding of 160px.
pub fn pt_40() -> (e: StyleEntry)
    ensures
        e == spec_base(Atom::Padding(PadEdge::Top, 160)),
{
    base_entry(Atom::Padding(PadEdge::Top, 160))
}

/// `pt_44`: top padding of 176px.
pub fn pt_44() -> (e: StyleEntry)
    ensures
        e == spec_base(Atom::Padding(PadEdge::Top, 176)),
{
    base_entry(Atom::Padding(PadEdge::Top, 176))
}

/// `pt_48`: top padding of 192px.
pub fn pt_48() -> (e: StyleEntry)
    ensures
        e == spec_base(Atom::Padding(PadEdge::Top, 192)),
{
    base_entry(Atom::Padding(PadEdge::Top, 192))
}

/// `pt_52`: top padding of 208px.
pub fn pt_52() -> (e: StyleEntry)
    ensures
        e == spec_base(Atom::Padding(PadEdge::Top, 208)),
{
    base_entry(Atom::Padding(PadEdge::Top, 208))
}

/// `pt_56`: top padding of 224px.
pub fn pt_56() -> (e: StyleEntry)
    ensures
        e == spec_base(Atom::Padding(PadEdge::Top, 224)),
{
    base_entry(Atom::Padding(PadEdge::Top, 224))
}

/// `pt_60`: top padding of 240px.
pub fn pt_60() -> (e: StyleEntry)
    ensures
        e == spec_base(Atom::Padding(PadEdge::Top, 240)),
{
    base_entry(Atom::Padding(PadEdge::Top, 240))
}

/// `pt_64`: top padding of 256px.
pub fn pt_64() -> (e: StyleEntry)
    ensures
        e == spec_base(Atom::Padding(PadEdge::Top, 256)),
{
    base_entry(Atom::Padding(PadEdge::Top, 256))
}

/// `pt_72`: top padding of 288px.
pub fn pt_72() -> (e: StyleEntry)
    ensures
        e == spec_base(Atom::Padding(PadEdge::Top, 288)),
{
    base_entry(Atom::Padding(PadEdge::Top, 288))
}

/// `pt_80`: top padding of 320px.
pub fn pt_80() -> (e: StyleEntry)
    ensures
        e == spec_base(Atom::Padding(PadEdge::Top, 320)),
{
    base_entry(Atom::Padding(PadEdge::Top, 320))
}

/// `pt_96`: top padding of 384px.
pub fn pt_96() -> (e: StyleEntry)
    ensures
        e == spec_base(Atom::Padding(PadEdge::Top, 384)),
{
    base_entry(Atom::Padding(PadEdge::Top, 384))
}

/// `pb_0`: bottom padding of 0px.
pub fn pb_0() -> (e: StyleEntry)
    ensures
        e == spec_base(Atom::Padding(PadEdge::Bottom, 0)),
{
    base_entry(Atom::Padding(PadEdge::Bottom, 0))
}

/// `pb_1`: bottom padding of 4px.
pub fn pb_1() -> (e: StyleEntry)
    ensures
        e == spec_base(Atom::Padding(PadEdge::Bottom, 4)),
{
    base_entry(Atom::Padding(PadEdge::Bottom, 4))
}

/// `pb_1p5`: bottom padding of 6px.
pub fn pb_1p5() -> (e: StyleEntry)
    ensures
        e == spec_base(Atom::Padding(PadEdge::Bottom, 6)),
{
    base_entry(Atom::Padding(PadEdge::Bottom, 6))
}

/// `pb_2`: bottom padding of 8px.
pub fn pb_2() -> (e: StyleEntry)
    ensures
        e == spec_base(Atom::Padding(PadEdge::Bottom, 8)),
{
    base_entry(Atom::Padding(PadEdge::Bottom, 8))
}

/// `pb_2p5`: bottom padding of 10px.
pub fn pb_2p5() -> (e: StyleEntry)
    ensures
        e == spec_base(Atom::Padding(PadEdge::Bottom, 10)),
{
    base_entry(Atom::Padding(PadEdge::Bottom, 10))
}

/// `pb_3`: bottom padding of 12px.
pub fn pb_3() -> (e: StyleEntry)
    ensures
        e == spec_base(Atom::Padding(PadEdge::Bottom, 12)),
{
    base_entry(Atom::Padding(PadEdge::Bottom, 12))
}

/// `pb_3p5`: bottom padding of 14px.
pub fn pb_3p5() -> (e: StyleEntry)
    ensures
        e == spec_base(Atom::Padding(PadEdge::Bottom, 14)),
{
    base_entry(Atom::Padding(PadEdge::Bottom, 14))
}

/// `pb_4`: bottom padding of 16px.
pub fn pb_4() -> (e: StyleEntry)
    ensures
        e == spec_base(Atom::Padding(PadEdge::Bottom, 16)),
{
    base_entry(Atom::Padding(PadEdge::Bottom, 16))
}

/// `pb_5`: bottom padding of 20px.
pub fn pb_5() -> (e: StyleEntry)
    ensures
        e == spec_base(Atom::Padding(PadEdge::Bottom, 20)),
{
    base_entry(Atom::Padding(PadEdge::Bottom, 20))
}

/// `pb_6`: bottom padding of 24px.
pub fn pb_6() -> (e: StyleEntry)
    ensures
        e == spec_base(Atom::Padding(PadEdge::Bottom, 24)),
{
    base_entry(Atom::Padding(PadEdge::Bottom, 24))
}

/// `pb_7`: bottom padding of 28px.
pub fn pb_7() -> (e: StyleEntry)
    ensures
        e == spec_base(Atom::Padding(PadEdge::Bottom, 28)),
{
    base_entry(Atom::Padding(PadEdge::Bottom, 28))
}

/// `pb_8`: bottom padding of 32px.
pub fn pb_8() -> (e: StyleEntry)
    ensures
        e == spec_base(Atom::Padding(PadEdge::Bottom, 32)),
{
    base_entry(Atom::Padding(PadEdge::Bottom, 32))
}

/// `pb_9`: bottom padding of 36px.
pub fn pb_9() -> (e: StyleEntry)
    ensures
        e == spec_base(Atom::Padding(PadEdge::Bottom, 36)),
{
    base_entry(Atom::Padding(PadEdge::Bottom, 36))
}

/// `pb_10`: bottom padding of 40px.
pub fn pb_10() -> (e: StyleEntry)
    ensures
        e == spec_base(Atom::Padding(PadEdge::Bottom, 40)),
{
    base_entry(Atom::Padding(PadEdge::Bottom, 40))
}

/// `pb_11`: bottom padding of 44px.
pub fn pb_11() -> (e: StyleEntry)
    ensures
        e == spec_base(Atom::Padding(PadEdge::Bottom, 44)),
{
    base_entry(Atom::Padding(PadEdge::Bottom, 44))
}

/// `pb_12`: bottom padding of 48px.
pub fn pb_12() -> (e: StyleEntry)
    ensures
        e == spec_base(Atom::Padding(PadEdge::Bottom, 48)),
{
    base_entry(Atom::Padding(PadEdge::Bottom, 48))
}

/// `pb_14`: bottom padding of 56px.
pub fn pb_14() -> (e: StyleEntry)
    ensures
        e == spec_base(Atom::Padding(PadEdge::Bottom, 56)),
{
    base_entry(Atom::Padding(PadEdge::Bottom, 56))
}

/// `pb_16`: bottom padding of 64px.
pub fn pb_16() -> (e: StyleEntry)
    ensures
        e == spec_base(Atom::Padding(PadEdge::Bottom, 64)),
{
    base_entry(Atom::Padding(PadEdge::Bottom, 64))
}

/// `pb_20`: bottom padding of 80px.
pub fn pb_20() -> (e: StyleEntry)
    ensures
        e == spec_base(Atom::Padding(PadEdge::Bottom, 80)),
{
    base_entry(Atom::Padding(PadEdge::Bottom, 80))
}

/// `pb_24`: bottom padding of 96px.
pub fn pb_24() -> (e: StyleEntry)
    ensures
        e == spec_base(Atom::Padding(PadEdge::Bottom, 96)),
{
    base_entry(Atom::Padding(PadEdge::Bottom, 96))
}

/// `pb_28`: bottom padding of 112px.
pub fn pb_28() -> (e: StyleEntry)
    ensures
        e == spec_base(Atom::Padding(PadEdge::Bottom, 112)),
{
    base_entry(Atom::Padding(PadEdge::Bottom, 112))
}

/// `pb_32`: bottom padding of 128px.
pub fn pb_32() -> (e: StyleEntry)
    ensures
        e == spec_base(Atom::Padding(PadEdge::Bottom, 128)),
{
    base_entry(Atom::Padding(PadEdge::Bottom, 128))
}

/// `pb_36`: bottom padding of 144px.
pub fn pb_36() -> (e: StyleEntry)
    ensures
        e == spec_base(Atom::Padding(PadEdge::Bottom, 144)),
{
    base_entry(Atom::Padding(PadEdge::Bottom, 144))
}

/// `pb_40`: bottom padding of 160px.
pub fn pb_40() -> (e: StyleEntry)
    ensures
        e == spec_base(Atom::Padding(PadEdge::Bottom, 160)),
{
    base_entry(Atom::Padding(PadEdge::Bottom, 160))
}

/// `pb_44`: bottom padding of 176px.
pub fn pb_44() -> (e: StyleEntry)
    ensures
        e == spec_base(Atom::Padding(PadEdge::Bottom, 176)),
{
    base_entry(Atom::Padding(PadEdge::Bottom, 176))
}

/// `pb_48`: bottom padding of 192px.
pub fn pb_48() -> (e: StyleEntry)
    ensures
        e == spec_base(Atom::Padding(PadEdge::Bottom, 192)),
{
    base_entry(Atom::Padding(PadEdge::Bottom, 192))
}

/// `pb_52`: bottom padding of 208px.
pub fn pb_52() -> (e: StyleEntry)
    ensures
        e == spec_base(Atom::Padding(PadEdge::Bottom, 208)),
{
    base_entry(Atom::Padding(PadEdge::Bottom, 208))
}

/// `pb_56`: bottom padding of 224px.
pub fn pb_56() -> (e: StyleEntry)
    ensures
        e == spec_base(Atom::Padding(PadEdge::Bottom, 224)),
{
    base_entry(Atom::Padding(PadEdge::Bottom, 224))
}

/// `pb_60`: bottom padding of 240px.
pub fn pb_60() -> (e: StyleEntry)
    ensures
        e == spec_base(Atom::Padding(PadEdge::Bottom, 240)),
{
    base_entry(Atom::Padding(PadEdge::Bottom, 240))
}

/// `pb_64`: bottom padding of 256px.
pub fn pb_64() -> (e: StyleEntry)
    ensures
        e == spec_base(Atom::Padding(PadEdge::Bottom, 256)),
{
    base_entry(Atom::Padding(PadEdge::Bottom, 256))
}

/// `pb_72`: bottom padding of 288px.
pub fn pb_72() -> (e: StyleEntry)
    ensures
        e == spec_base(Atom::Padding(PadEdge::Bottom, 288)),
{
    base_entry(Atom::Padding(PadEdge::Bottom, 288))
}

/// `pb_80`: bottom padding of 320px.
pub fn pb_80() -> (e: StyleEntry)
    ensures
        e == spec_base(Atom::Padding(PadEdge::Bottom, 320)),
{
    base_entry(Atom::Padding(PadEdge::Bottom, 320))
}

/// `pb_96`: bottom padding of 384px.
pub fn pb_96() -> (e: StyleEntry)
    ensures
        e == spec_base(Atom::Padding(PadEdge::Bottom, 384)),
{
    base_entry(Atom::Padding(PadEdge::Bottom, 384))
}

/// `px_0`: left and right padding of 0px.
pub fn px_0() -> (e: StyleEntry)
    ensures
        e == spec_base(Atom::Padding(PadEdge::Horizontal, 0)),
{
    base_entry(Atom::Padding(PadEdge::Horizontal, 0))
}

/// `px_1`: left and right padding of 4px.
pub fn px_1() -> (e: StyleEntry)
    ensures
        e == spec_base(Atom::Padding(PadEdge::Horizontal, 4)),
{
    base_entry(Atom::Padding(PadEdge::Horizontal, 4))
}

/// `px_1p5`: left and right padding of 6px.
pub fn px_1p5() -> (e: StyleEntry)
    ensures
        e == spec_base(Atom::Padding(PadEdge::Horizontal, 6)),
{
    base_entry(Atom::Padding(PadEdge::Horizontal, 6))
}

/// `px_2`: left and right padding of 8px.
pub fn px_2() -> (e: StyleEntry)
    ensures
        e == spec_base(Atom::Padding(PadEdge::Horizontal, 8)),
{
    base_entry(Atom::Padding(PadEdge::Horizontal, 8))
}

/// `px_2p5`: left and right padding of 10px.
pub fn px_2p5() -> (e: StyleEntry)
    ensures
        e == spec_base(Atom::Padding(PadEdge::Horizontal, 10)),
{
    base_entry(Atom::Padding(PadEdge::Horizontal, 10))
}

/// `px_3`: left and right padding of 12px.
pub fn px_3() -> (e: StyleEntry)
    ensures
        e == spec_base(Atom::Padding(PadEdge::Horizontal, 12)),
{
    base_entry(Atom::Padding(PadEdge::Horizontal, 12))
}

/// `px_3p5`: left and right padding of 14px.
pub fn px_3p5() -> (e: StyleEntry)
    ensures
        e == spec_base(Atom::Padding(PadEdge::Horizontal, 14)),
{
    base_entry(Atom::Padding(PadEdge::Horizontal, 14))
}

/// `px_4`: left and right padding of 16px.
pub fn px_4() -> (e: StyleEntry)
    ensures
        e == spec_base(Atom::Padding(PadEdge::Horizontal, 16)),
{
    base_entry(Atom::Padding(PadEdge::Horizontal, 16))
}

/// `px_5`: left and right padding of 20px.
pub fn px_5() -> (e: StyleEntry)
    ensures
        e == spec_base(Atom::Padding(PadEdge::Horizontal, 20)),
{
    base_entry(Atom::Padding(PadEdge::Horizontal, 20))
}

/// `px_6`: left and right padding of 24px.
pub fn px_6() -> (e: StyleEntry)
    ensures
        e == spec_base(Atom::Padding(PadEdge::Horizontal, 24)),
{
    base_entry(Atom::Padding(PadEdge::Horizontal, 24))
}

/// `px_7`: left and right padding of 28px.
pub fn px_7() -> (e: StyleEntry)
    ensures
        e == spec_base(Atom::Padding(PadEdge::Horizontal, 28)),
{
    base_entry(Atom::Padding(PadEdge::Horizontal, 28))
}

/// `px_8`: left and right padding of 32px.
pub fn px_8() -> (e: StyleEntry)
    ensures
        e == spec_base(Atom::Padding(PadEdge::Horizontal, 32)),
{
    base_entry(Atom::Padding(PadEdge::Horizontal, 32))
}

/// `px_9`: left and right padding of 36px.
pub fn px_9() -> (e: StyleEntry)
    ensures
        e == spec_base(Atom::Padding(PadEdge::Horizontal, 36)),
{
    base_entry(Atom::Padding(PadEdge::Horizontal, 36))
}

/// `px_10`: left and right padding of 40px.
pub fn px_10() -> (e: StyleEntry)
    ensures
        e == spec_base(Atom::Padding(PadEdge::Horizontal, 40)),
{
    base_entry(Atom::Padding(PadEdge::Horizontal, 40))
}

/// `px_11`: left and right padding of 44px.
pub fn px_11() -> (e: StyleEntry)
    ensures
        e == spec_base(Atom::Padding(PadEdge::Horizontal, 44)),
{
    base_entry(Atom::Padding(PadEdge::Horizontal, 44))
}

/// `px_12`: left and right padding of 48px.
pub fn px_12() -> (e: StyleEntry)
    ensures
        e == spec_base(Atom::Padding(PadEdge::Horizontal, 48)),
{
    base_entry(Atom::Padding(PadEdge::Horizontal, 48))
}

/// `px_14`: left and right padding of 56px.
pub fn px_14() -> (e: StyleEntry)
    ensures
        e == spec_base(Atom::Padding(PadEdge::Horizontal, 56)),
{
    base_entry(Atom::Padding(PadEdge::Horizontal, 56))
}

/// `px_16`: left and right padding of 64px.
pub fn px_16() -> (e: StyleEntry)
    ensures
        e == spec_base(Atom::Padding(PadEdge::Horizontal, 64)),
{
    base_entry(Atom::Padding(PadEdge::Horizontal, 64))
}

/// `px_20`: left and right padding of 80px.
pub fn px_20() -> (e: StyleEntry)
    ensures
        e == spec_base(Atom::Padding(PadEdge::Horizontal, 80)),
{
    base_entry(Atom::Padding(PadEdge::Horizontal, 80))
}

/// `px_24`: left and right padding of 96px.
pub fn px_24() -> (e: StyleEntry)
    ensures
        e == spec_base(Atom::Padding(PadEdge::Horizontal, 96)),
{
    base_entry(Atom::Padding(PadEdge::Horizontal, 96))
}

/// `px_28`: left and right padding of 112px.
pub fn px_28() -> (e: StyleEntry)
    ensures
        e == spec_base(Atom::Padding(PadEdge::Horizontal, 112)),
{
    base_entry(Atom::Padding(PadEdge::Horizontal, 112))
}

/// `px_32`: left and right padding of 128px.
pub fn px_32() -> (e: StyleEntry)
    ensures
        e == spec_base(Atom::Padding(PadEdge::Horizontal, 128)),
{
    base_entry(Atom::Padding(PadEdge::Horizontal, 128))
}

/// `px_36`: left and right padding of 144px.
pub fn px_36() -> (e: StyleEntry)
    ensures
        e == spec_base(Atom::Padding(PadEdge::Horizontal, 144)),
{
    base_entry(Atom::Padding(PadEdge::Horizontal, 144))
}

/// `px_40`: left and right padding of 160px.
pub fn px_40() -> (e: StyleEntry)
    ensures
        e == spec_base(Atom::Padding(PadEdge::Horizontal, 160)),
{
    base_entry(Atom::Padding(PadEdge::Horizontal, 160))
}

/// `px_44`: left and right padding of 176px.
pub fn px_44() -> (e: StyleEntry)
    ensures
        e == spec_base(Atom::Padding(PadEdge::Horizontal, 176)),
{
    base_entry(Atom::Padding(PadEdge::Horizontal, 176))
}

/// `px_48`: left and right padding of 192px.
pub fn px_48() -> (e: StyleEntry)
    ensures
        e == spec_base(Atom::Padding(PadEdge::Horizontal, 192)),
{
    base_entry(Atom::Padding(PadEdge::Horizontal, 192))
}

/// `px_52`: left and right padding of 208px.
pub fn px_52() -> (e: StyleEntry)
    ensures
        e == spec_base(Atom::Padding(PadEdge::Horizontal, 208)),
{
    base_entry(Atom::Padding(PadEdge::Horizontal, 208))
}

/// `px_56`: left and right padding of 224px.
pub fn px_56() -> (e: StyleEntry)
    ensures
        e == spec_base(Atom::Padding(PadEdge::Horizontal, 224)),
{
    base_entry(Atom::Padding(PadEdge::Horizontal, 224))
}

/// `px_60`: left and right padding of 240px.
pub fn px_60() -> (e: StyleEntry)
    ensures
        e == spec_base(Atom::Padding(PadEdge::Horizontal, 240)),
{
    base_entry(Atom::Padding(PadEdge::Horizontal, 240))
}

/// `px_64`: left and right padding of 256px.
pub fn px_64() -> (e: StyleEntry)
    ensures
        e == spec_base(Atom::Padding(PadEdge::Horizontal, 256)),
{
    base_entry(Atom::Padding(PadEdge::Horizontal, 256))
}

/// `px_72`: left and right padding of 288px.
pub fn px_72() -> (e: StyleEntry)
    ensures
        e == spec_base(Atom::Padding(PadEdge::Horizontal, 288)),
{
    base_entry(Atom::Padding(PadEdge::Horizontal, 288))
}

/// `px_80`: left and right padding of 320px.
pub fn px_80() -> (e: StyleEntry)
    ensures
        e == spec_base(Atom::Padding(PadEdge::Horizontal, 320)),
{
    base_entry(Atom::Padding(PadEdge::Horizontal, 320))
}

/// `px_96`: left and right padding of 384px.
pub fn px_96() -> (e: StyleEntry)
    ensures
        e == spec_base(Atom::Padding(PadEdge::Horizontal, 384)),
{
    base_entry(Atom::Padding(PadEdge::Horizontal, 384))
}

/// `py_0`: top and bottom padding of 0px.
pub fn py_0() -> (e: StyleEntry)
    ensures
        e == spec_base(Atom::Padding(PadEdge::Vertical, 0)),
{
    base_entry(Atom::Padding(PadEdge::Vertical, 0))
}

/// `py_1`: top and bottom padding of 4px.
pub fn py_1() -> (e: StyleEntry)
    ensures
        e == spec_base(Atom::Padding(PadEdge::Vertical, 4)),
{
    base_entry(Atom::Padding(PadEdge::Vertical, 4))
}

/// `py_1p5`: top and bottom padding of 6px.
pub fn py_1p5() -> (e: StyleEntry)
    ensures
        e == spec_base(Atom::Padding(PadEdge::Vertical, 6)),
{
    base_entry(Atom::Padding(PadEdge::Vertical, 6))
}

/// `py_2`: top and bottom padding of 8px.
pub fn py_2() -> (e: StyleEntry)
    ensures
        e == spec_base(Atom::Padding(PadEdge::Vertical, 8)),
{
    base_entry(Atom::Padding(PadEdge::Vertical, 8))
}

/// `py_2p5`: top and bottom padding of 10px.
pub fn py_2p5() -> (e: StyleEntry)
    ensures
        e == spec_base(Atom::Padding(PadEdge::Vertical, 10)),
{
    base_entry(Atom::Padding(PadEdge::Vertical, 10))
}

/// `py_3`: top and bottom padding of 12px.
pub fn py_3() -> (e: StyleEntry)
    ensures
        e == spec_base(Atom::Padding(PadEdge::Vertical, 12)),
{
    base_entry(Atom::Padding(PadEdge::Vertical, 12))
}

/// `py_3p5`: top and bottom padding of 14px.
pub fn py_3p5() -> (e: StyleEntry)
    ensures
        e == spec_base(Atom::Padding(PadEdge::Vertical, 14)),
{
    base_entry(Atom::Padding(PadEdge::Vertical, 14))
}

/// `py_4`: top and bottom padding of 16px.
pub fn py_4() -> (e: StyleEntry)
    ensures
        e == spec_base(Atom::Padding(PadEdge::Vertical, 16)),
{
    base_entry(Atom::Padding(PadEdge::Vertical, 16))
}

/// `py_5`: top and bottom padding of 20px.
pub fn py_5() -> (e: StyleEntry)
    ensures
        e == spec_base(Atom::Padding(PadEdge::Vertical, 20)),
{
    base_entry(Atom::Padding(PadEdge::Vertical, 20))
}

/// `py_6`: top and bottom padding of 24px.
pub fn py_6() -> (e: StyleEntry)
    ensures
        e == spec_base(Atom::Padding(PadEdge::Vertical, 24)),
{
    base_entry(Atom::Padding(PadEdge::Vertical, 24))
}

/// `py_7`: top and bottom padding of 28px.
pub fn py_7() -> (e: StyleEntry)
    ensures
        e == spec_base(Atom::Padding(PadEdge::Vertical, 28)),
{
    base_entry(Atom::Padding(PadEdge::Vertical, 28))
}

/// `py_8`: top and bottom padding of 32px.
pub fn py_8() -> (e: StyleEntry)
    ensures
        e == spec_base(Atom::Padding(PadEdge::Vertical, 32)),
{
    base_entry(Atom::Padding(PadEdge::Vertical, 32))
}

/// `py_9`: top and bottom padding of 36px.
pub fn py_9() -> (e: StyleEntry)
    ensures
        e == spec_base(Atom::Padding(PadEdge::Vertical, 36)),
{
    base_entry(Atom::Padding(PadEdge::Vertical, 36))
}

/// `py_10`: top and bottom padding of 40px.
pub fn py_10() -> (e: StyleEntry)
    ensures
        e == spec_base(Atom::Padding(PadEdge::Vertical, 40)),
{
    base_entry(Atom::Padding(PadEdge::Vertical, 40))
}

/// `py_11`: top and bottom padding of 44px.
pub fn py_11() -> (e: StyleEntry)
    ensures
        e == spec_base(Atom::Padding(PadEdge::Vertical, 44)),
{
    base_entry(Atom::Padding(PadEdge::Vertical, 44))
}

/// `py_12`: top and bottom padding of 48px.
pub fn py_12() -> (e: StyleEntry)
    ensures
        e == spec_base(Atom::Padding(PadEdge::Vertical, 48)),
{
    base_entry(Atom::Padding(PadEdge::Vertical, 48))
}

/// `py_14`: top and bottom padding of 56px.
pub fn py_14() -> (e: StyleEntry)
    ensures
        e == spec_base(Atom::Padding(PadEdge::Vertical, 56)),
{
    base_entry(Atom::Padding(PadEdge::Vertical, 56))
}

/// `py_16`: top and bottom padding of 64px.
pub fn py_16() -> (e: StyleEntry)
    ensures
        e == spec_base(Atom::Padding(PadEdge::Vertical, 64)),
{
    base_entry(Atom::Padding(PadEdge::Vertical, 64))
}

/// `py_20`: top and bottom padding of 80px.
pub fn py_20() -> (e: StyleEntry)
    ensures
        e == spec_base(Atom::Padding(PadEdge::Vertical, 80)),
{
    base_entry(Atom::Padding(PadEdge::Vertical, 80))
}

/// `py_24`: top and bottom padding of 96px.
pub fn py_24() -> (e: StyleEntry)
    ensures
        e == spec_base(Atom::Padding(PadEdge::Vertical, 96)),
{
    base_entry(Atom::Padding(PadEdge::Vertical, 96))
}

/// `py_28`: top and bottom padding of 112px.
pub fn py_28() -> (e: StyleEntry)
    ensures
        e == spec_base(Atom::Padding(PadEdge::Vertical, 112)),
{
    base_entry(Atom::Padding(PadEdge::Vertical, 112))
}

/// `py_32`: top and bottom padding of 128px.
pub fn py_32() -> (e: StyleEntry)
    ensures
        e == spec_base(Atom::Padding(PadEdge::Vertical, 128)),
{
    base_entry(Atom::Padding(PadEdge::Vertical, 128))
}

/// `py_36`: top and bottom padding of 144px.
pub fn py_36() -> (e: StyleEntry)
    ensures
        e == spec_base(Atom::Padding(PadEdge::Vertical, 144)),
{
    base_entry(Atom::Padding(PadEdge::Vertical, 144))
}

/// `py_40`: top and bottom padding of 160px.
pub fn py_40() -> (e: StyleEntry)
    ensures
        e == spec_base(Atom::Padding(PadEdge::Vertical, 160)),
{
    base_entry(Atom::Padding(PadEdge::Vertical, 160))
}

/// `py_44`: top and bottom padding of 176px.
pub fn py_44() -> (e: StyleEntry)
    ensures
        e == spec_base(Atom::Padding(PadEdge::Vertical, 176)),
{
    base_entry(Atom::Padding(PadEdge::Vertical, 176))
}

/// `py_48`: top and bottom padding of 192px.
pub fn py_48() -> (e: StyleEntry)
    ensures
        e == spec_base(Atom::Padding(PadEdge::Vertical, 192)),
{
    base_entry(Atom::Padding(PadEdge::Vertical, 192))
}

/// `py_52`: top and bottom padding of 208px.
pub fn py_52() -> (e: StyleEntry)
    ensures
        e == spec_base(Atom::Padding(PadEdge::Vertical, 208)),
{
    base_entry(Atom::Padding(PadEdge::Vertical, 208))
}

/// `py_56`: top and bottom padding of 224px.
pub fn py_56() -> (e: StyleEntry)
    ensures
        e == spec_base(Atom::Padding(PadEdge::Vertical, 224)),
{
    base_entry(Atom::Padding(PadEdge::Vertical, 224))
}

/// `py_60`: top and bottom padding of 240px.
pub fn py_60() -> (e: StyleEntry)
    ensures
        e == spec_base(Atom::Padding(PadEdge::Vertical, 240)),
{
    base_entry(Atom::Padding(PadEdge::Vertical, 240))
}

/// `py_64`: top and bottom padding of 256px.
pub fn py_64() -> (e: StyleEntry)
    ensures
        e == spec_base(Atom::Padding(PadEdge::Vertical, 256)),
{
    base_entry(Atom::Padding(PadEdge::Vertical, 256))
}

/// `py_72`: top and bottom padding of 288px.
pub fn py_72() -> (e: StyleEntry)
    ensures
        e == spec_base(Atom::Padding(PadEdge::Vertical, 288)),
{
    base_entry(Atom::Padding(PadEdge::Vertical, 288))
}

/// `py_80`: top and bottom padding of 320px.
pub fn py_80() -> (e: StyleEntry)
    ensures
        e == spec_base(Atom::Padding(PadEdge::Vertical, 320)),
{
    base_entry(Atom::Padding(PadEdge::Vertical, 320))
}

/// `py_96`: top and bottom padding of 384px.
pub fn py_96() -> (e: StyleEntry)
    ensures
        e == spec_base(Atom::Padding(PadEdge::Vertical, 384)),
{
    base_entry(Atom::Padding(PadEdge::Vertical, 384))
}

/// `font_family`: use the font behind the given handle.
pub fn font_family(font: u64) -> (e: StyleEntry)
    ensures
        e == spec_base(Atom::FontFamily(font)),
{
    base_entry(Atom::FontFamily(font))
}

} // verus!
