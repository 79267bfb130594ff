//! Style records: an optional color and an optional font emphasis, encoded
//! to one JSON object under two mutually exclusive key/value conventions.

use vstd::prelude::*;
use crate::color::{hex_token, Color};
use crate::jsonval::{
    object_from_entries, value_from_string, value_model, JsonEntry, JsonLeaf, JsonModel,
};

verus! {

/// The supported combinations of font emphasis. `Inherit` is a sentinel
/// meaning "defer to an enclosing scope's styling; emit nothing".
#[derive(Clone, Copy, PartialEq, Eq, Structural, Debug)]
pub enum FontStyle {
    Bold,
    Italic,
    BoldItalic,
    Underline,
    Inherit,
}

/// The emphasis token of the single-string-field convention; `Inherit`
/// renders as the empty string.
pub open spec fn single_field_token(fs: FontStyle) -> Seq<char> {
    match fs {
        FontStyle::Bold => "bold"@,
        FontStyle::Italic => "italic"@,
        FontStyle::BoldItalic => "bold italic"@,
        FontStyle::Underline => "underline"@,
        FontStyle::Inherit => Seq::empty(),
    }
}

/// The (key, flag) pairs of the boolean-flags convention, in the order
/// they are emitted. `Inherit` never reaches this convention and is given
/// no pairs.
pub open spec fn flag_fields(fs: FontStyle) -> Seq<(Seq<char>, bool)> {
    match fs {
        FontStyle::Bold => seq![("bold"@, true)],
        FontStyle::Italic => seq![("italic"@, true)],
        FontStyle::BoldItalic => seq![("bold"@, true), ("italic"@, true)],
        FontStyle::Underline => seq![("underline"@, true)],
        FontStyle::Inherit => Seq::empty(),
    }
}

impl FontStyle {
    /// The textual form used by the single-string-field convention.
    pub fn to_single_field_token(self) -> (r: String)
        ensures
            r@ == single_field_token(self),
    {
        proof {
            reveal_strlit("");
        }
        match self {
            FontStyle::Bold => "bold".to_owned(),
            FontStyle::Italic => "italic".to_owned(),
            FontStyle::BoldItalic => "bold italic".to_owned(),
            FontStyle::Underline => "underline".to_owned(),
            FontStyle::Inherit => "".to_owned(),
        }
    }

    /// The (key, flag) pairs used by the boolean-flags convention.
    /// `Inherit` is intercepted one level up and never reaches this
    /// operation.
    pub fn to_flag_fields(self) -> (r: Vec<(String, bool)>)
        requires
            self != FontStyle::Inherit,
        ensures
            r@.len() == flag_fields(self).len(),
            forall|i: int|
                0 <= i < r@.len() ==> ((#[trigger] r@[i]).0@, r@[i].1) == flag_fields(self)[i],
    {
        match self {
            FontStyle::Bold => vec![("bold".to_owned(), true)],
            FontStyle::Italic => vec![("italic".to_owned(), true)],
            FontStyle::BoldItalic => vec![
                ("bold".to_owned(), true),
                ("italic".to_owned(), true),
            ],
            FontStyle::Underline => vec![("underline".to_owned(), true)],
            FontStyle::Inherit => vec![],
        }
    }

    /// The emphasis as the `json` crate's string value of its
    /// single-field token.
    pub fn into_json_value(self) -> (v: json::JsonValue)
        ensures
            value_model(v) == JsonModel::Text(single_field_token(self)),
    {
        value_from_string(self.to_single_field_token())
    }
}

/// An optional color and an optional font emphasis; absence of a field
/// means "not specified by this rule".
#[derive(Clone, Copy)]
pub struct Style {
    pub color: Option<Color>,
    pub font_style: Option<FontStyle>,
}

/// The entry a present color contributes: its hex token under the key
/// `foreground`.
pub open spec fn color_entries(color: Option<Color>) -> Seq<(Seq<char>, JsonModel)> {
    match color {
        Some(c) => seq![("foreground"@, JsonModel::Text(hex_token(c.hex, c.alpha)))],
        None => Seq::empty(),
    }
}

/// The entries the stored emphasis contributes. An explicit `Inherit`
/// emits nothing under either convention; an absent emphasis emits
/// `fontStyle` with the empty string under either convention; any other
/// emphasis is encoded by the convention the flag selects.
pub open spec fn emphasis_entries(font_style: Option<FontStyle>, in_textmate_rule: bool) -> Seq<
    (Seq<char>, JsonModel),
> {
    match font_style {
        Some(FontStyle::Inherit) => Seq::empty(),
        Some(fs) => if in_textmate_rule {
            seq![("fontStyle"@, JsonModel::Text(single_field_token(fs)))]
        } else {
            flag_fields(fs).map_values(|p: (Seq<char>, bool)| (p.0, JsonModel::Flag(p.1)))
        },
        None => seq![("fontStyle"@, JsonModel::Text(Seq::empty()))],
    }
}

/// The key/value entries of the JSON object for a style, in the order they
/// are emitted: the color's entry first, then the emphasis entries.
pub open spec fn style_entries(s: Style, in_textmate_rule: bool) -> Seq<(Seq<char>, JsonModel)> {
    color_entries(s.color) + emphasis_entries(s.font_style, in_textmate_rule)
}

impl Style {
    /// The style's invariant: a present color is well-formed.
    pub open spec fn wf(self) -> bool {
        self.color matches Some(c) ==> c.wf()
    }

    /// A style holding a color alone.
    pub fn from_color(color: Color) -> (s: Style)
        ensures
            s == (Style { color: Some(color), font_style: None }),
    {
        Style { color: Some(color), font_style: None }
    }

    /// A style holding a font emphasis alone.
    pub fn from_font_style(font_style: FontStyle) -> (s: Style)
        ensures
            s == (Style { color: None, font_style: Some(font_style) }),
    {
        Style { color: None, font_style: Some(font_style) }
    }

    /// A style holding both a color and a font emphasis.
    pub fn from_color_and_font_style(color: Color, font_style: FontStyle) -> (s: Style)
        ensures
            s == (Style { color: Some(color), font_style: Some(font_style) }),
    {
        Style { color: Some(color), font_style: Some(font_style) }
    }

    /// The key/value entries of the style's JSON object, in emission
    /// order.
    pub fn to_entries(&self, in_textmate_rule: bool) -> (r: Vec<JsonEntry>)
        requires
            self.wf(),
        ensures
            r@.map_values(|e: JsonEntry| e@) == style_entries(*self, in_textmate_rule),
    {
        let mut out: Vec<JsonEntry> = Vec::new();
        if let Some(color) = &self.color {
            out.push(
                JsonEntry {
                    key: "foreground".to_owned(),
                    value: JsonLeaf::Text(color.to_hex_token()),
                },
            );
        }
        let ghost base = out@;
        proof {
            assert(base.map_values(|e: JsonEntry| e@) =~= color_entries(self.color));
        }
        match self.font_style {
            Some(FontStyle::Inherit) => {
                proof {
                    assert(out@.map_values(|e: JsonEntry| e@) =~= style_entries(
                        *self,
                        in_textmate_rule,
                    ));
                }
            },
            Some(fs) => {
                if in_textmate_rule {
                    out.push(
                        JsonEntry {
                            key: "fontStyle".to_owned(),
                            value: JsonLeaf::Text(fs.to_single_field_token()),
                        },
                    );
                    proof {
                        assert(out@.map_values(|e: JsonEntry| e@) =~= style_entries(
                            *self,
                            in_textmate_rule,
                        ));
                    }
                } else {
                    let flags = fs.to_flag_fields();
                    let mut i: usize = 0;
                    while i < flags.len()
                        invariant
                            0 <= i <= flags@.len(),
                            flags@.len() == flag_fields(fs).len(),
                            forall|k: int|
                                0 <= k < flags@.len() ==> ((#[trigger] flags@[k]).0@, flags@[k].1)
                                    == flag_fields(fs)[k],
                            out@.len() == base.len() + i,
                            forall|k: int| 0 <= k < base.len() ==> #[trigger] out@[k] == base[k],
                            forall|k: int|
                                0 <= k < i ==> (#[trigger] out@[base.len() + k])@ == (
                                flag_fields(fs)[k].0,
                                JsonModel::Flag(flag_fields(fs)[k].1),
                                ),
                        decreases flags@.len() - i,
                    {
                        let pair = &flags[i];
                        out.push(JsonEntry { key: pair.0.clone(), value: JsonLeaf::Flag(pair.1) });
                        i = i + 1;
                    }
                    proof {
                        let f = |e: JsonEntry| e@;
                        let m = |p: (Seq<char>, bool)| (p.0, JsonModel::Flag(p.1));
                        assert(style_entries(*self, in_textmate_rule) == color_entries(self.color)
                            + flag_fields(fs).map_values(m));
                        assert forall|k: int| 0 <= k < out@.len() implies #[trigger] out@.map_values(
                            f,
                        )[k] == style_entries(*self, in_textmate_rule)[k] by {
                            if k < base.len() {
                                assert(out@[k] == base[k]);
                                assert(base.map_values(f)[k] == f(base[k]));
                                assert(color_entries(self.color)[k] == base.map_values(f)[k]);
                            } else {
                                let off = k - base.len();
                                assert(out@[base.len() + off] == out@[k]);
                                assert(flag_fields(fs).map_values(m)[off] == m(
                                    flag_fields(fs)[off],
                                ));
                            }
                        }
                        assert(out@.map_values(f) =~= style_entries(*self, in_textmate_rule));
                    }
                }
            },
            None => {
                proof {
                    reveal_strlit("");
                }
                out.push(
                    JsonEntry { key: "fontStyle".to_owned(), value: JsonLeaf::Text("".to_owned()) },
                );
                proof {
                    assert(""@ =~= Seq::<char>::empty());
                    assert(out@.map_values(|e: JsonEntry| e@) =~= style_entries(
                        *self,
                        in_textmate_rule,
                    ));
                }
            },
        }
        out
    }

    /// Encodes the style as one JSON object. With `in_textmate_rule` the
    /// single-string-field convention is used, without it the
    /// boolean-flags convention; an explicit `Inherit` emphasis emits no
    /// emphasis key under either.
    pub fn as_json_value(&self, in_textmate_rule: bool) -> (v: json::JsonValue)
        requires
            self.wf(),
        ensures
            value_model(v) == JsonModel::Obj(style_entries(*self, in_textmate_rule)),
    {
        let entries = self.to_entries(in_textmate_rule);
        proof {
            lemma_style_entry_keys_distinct(*self, in_textmate_rule);
            let f = |e: JsonEntry| e@;
            assert forall|i: int, j: int|
                0 <= i < j < entries@.len() implies (#[trigger] entries@[i]).key@ != (
            #[trigger] entries@[j]).key@ by {
                assert(entries@.map_values(f)[i] == entries@[i]@);
                assert(entries@.map_values(f)[j] == entries@[j]@);
            }
        }
        object_from_entries(&entries)
    }
}

/// The keys of a style's JSON object are pairwise distinct, whichever
/// convention is selected.
pub proof fn lemma_style_entry_keys_distinct(s: Style, in_textmate_rule: bool)
    ensures
        forall|i: int, j: int|
            0 <= i < j < style_entries(s, in_textmate_rule).len() ==> style_entries(
                s,
                in_textmate_rule,
            )[i].0 != style_entries(s, in_textmate_rule)[j].0,
{
    reveal_strlit("foreground");
    reveal_strlit("fontStyle");
    reveal_strlit("bold");
    reveal_strlit("italic");
    reveal_strlit("underline");
    let t = style_entries(s, in_textmate_rule);
    assert forall|i: int, j: int| 0 <= i < j < t.len() implies t[i].0 != t[j].0 by {
        assert("foreground"@.len() == 10);
        assert("fontStyle"@.len() == 9);
        assert("bold"@.len() == 4);
        assert("italic"@.len() == 6);
        assert("underline"@.len() == 9);
        assert("fontStyle"@[0] == 'f' && "underline"@[0] == 'u');
    }
}

} // verus!
