//! The theme aggregate: a palette of named color roles, a border style and a
//! shadow flag, with a built-in default and an in-place loader that applies
//! configuration overrides on top of it.
//!
//! Loading is best-effort: a field whose value does not parse as a color is
//! left at its prior value, and the load continues.

use vstd::prelude::*;

use crate::color::{color_wf, lemma_parse_color_wf, spec_parse_color, str_eq, BaseColor, Color};
use crate::config::{
    table_get, table_model, value_as_array, value_as_bool, value_as_str, value_as_table,
    value_model, ConfigNode,
};

verus! {

/// How borders around views should be drawn.
#[derive(Clone, Copy, Debug, PartialEq, Eq, Hash, Structural)]
pub enum BorderStyle {
    /// Simple borders.
    Simple,
    /// Outset borders with a simple 3d effect.
    Outset,
    /// No borders.
    NoBorder,
}

/// The border style a string names: `simple` and `outset` name their styles,
/// and anything else means no borders.
pub open spec fn spec_border_style_from(s: Seq<char>) -> BorderStyle {
    if s == "simple"@ {
        BorderStyle::Simple
    } else if s == "outset"@ {
        BorderStyle::Outset
    } else {
        BorderStyle::NoBorder
    }
}

impl BorderStyle {
    /// Classify a border-style string.  This never fails: an unrecognized
    /// string means no borders.
    pub fn from(s: &str) -> (r: Self)
        ensures
            r == spec_border_style_from(s@),
    {
        if str_eq(s, "simple") {
            BorderStyle::Simple
        } else if str_eq(s, "outset") {
            BorderStyle::Outset
        } else {
            BorderStyle::NoBorder
        }
    }
}

/// The assignment of a color to each of the 10 named color roles.
#[derive(Clone, Copy, Debug, PartialEq, Eq, Structural)]
pub struct Palette {
    /// Color of the application background, around views.
    pub background: Color,
    /// Color of the shadow around views.
    pub shadow: Color,
    /// Color of the background of views.
    pub view: Color,
    /// Primary text color.
    pub primary: Color,
    /// Secondary text color.
    pub secondary: Color,
    /// Tertiary text color.
    pub tertiary: Color,
    /// Primary title color.
    pub title_primary: Color,
    /// Secondary title color.
    pub title_secondary: Color,
    /// Color used to highlight selected items.
    pub highlight: Color,
    /// Color used to highlight selected but inactive items.
    pub highlight_inactive: Color,
}

/// What loading one configuration node into a color field yields: the new
/// field value, and whether a color was accepted.  A string is parsed as a
/// color; an array is tried element by element, left to right, the first
/// element that yields a color winning; anything else leaves the field
/// untouched.
pub open spec fn spec_load_color(cur: Color, v: ConfigNode) -> (Color, bool)
    decreases v,
{
    match v {
        ConfigNode::Str(s) => match spec_parse_color(s) {
            Some(c) => (c, true),
            None => (cur, false),
        },
        ConfigNode::Arr(items) => spec_load_color_seq(cur, items, 0),
        _ => (cur, false),
    }
}

/// Loading an array of configuration nodes from position `i` on: the first
/// element that yields a color wins.
pub open spec fn spec_load_color_seq(cur: Color, items: Seq<ConfigNode>, i: int) -> (Color, bool)
    decreases items, items.len() - i,
{
    if i < 0 || i >= items.len() {
        (cur, false)
    } else {
        let first = spec_load_color(cur, items[i]);
        if first.1 {
            first
        } else {
            spec_load_color_seq(cur, items, i + 1)
        }
    }
}

/// A load that accepts no color leaves the field at its prior value.
proof fn lemma_load_color_failure(cur: Color, v: ConfigNode)
    ensures
        !spec_load_color(cur, v).1 ==> spec_load_color(cur, v).0 == cur,
    decreases v,
{
    match v {
        ConfigNode::Arr(items) => lemma_load_color_seq_failure(cur, items, 0),
        _ => (),
    }
}

proof fn lemma_load_color_seq_failure(cur: Color, items: Seq<ConfigNode>, i: int)
    ensures
        !spec_load_color_seq(cur, items, i).1 ==> spec_load_color_seq(cur, items, i).0 == cur,
    decreases items, items.len() - i,
{
    if 0 <= i < items.len() {
        lemma_load_color_failure(cur, items[i]);
        lemma_load_color_seq_failure(cur, items, i + 1);
    }
}

/// What a color field becomes when its key maps to `v` in the configuration:
/// the accepted color, or the prior value where none is accepted.
pub open spec fn spec_loaded_color(cur: Color, v: Option<ConfigNode>) -> Color {
    match v {
        Some(node) => spec_load_color(cur, node).0,
        None => cur,
    }
}

/// The entry a table holds at a key, if any.
pub open spec fn spec_table_entry(m: Map<Seq<char>, ConfigNode>, key: Seq<char>) -> Option<
    ConfigNode,
> {
    if m.contains_key(key) {
        Some(m[key])
    } else {
        None
    }
}

/// Parses `value` and fills `target` if it yields a valid color; otherwise
/// `target` is left untouched.  Returns whether a color was accepted.
pub fn load_color(target: &mut Color, value: Option<&toml::Value>) -> (r: bool)
    ensures
        match value {
            Some(v) => (*final(target), r) == spec_load_color(*old(target), value_model(*v)),
            None => *final(target) == *old(target) && !r,
        },
{
    match value {
        Some(v) => load_color_value(target, v),
        None => false,
    }
}

fn load_color_value(target: &mut Color, v: &toml::Value) -> (r: bool)
    ensures
        (*final(target), r) == spec_load_color(*old(target), value_model(*v)),
    decreases value_model(*v),
{
    if let Some(s) = value_as_str(v) {
        match Color::parse(s) {
            Some(c) => {
                *target = c;
                return true;
            },
            None => {
                return false;
            },
        }
    }
    if let Some(arr) = value_as_array(v) {
        let ghost t0 = *target;
        let ghost models = value_model(*v)->Arr_0;
        let mut i: usize = 0;
        while i < arr.len()
            invariant
                i <= arr.len(),
                t0 == *old(target),
                *target == t0,
                models == arr@.map_values(|x: toml::Value| value_model(x)),
                value_model(*v) is Arr,
                value_model(*v)->Arr_0 == models,
                spec_load_color_seq(t0, models, 0) == spec_load_color_seq(t0, models, i as int),
            decreases arr.len() - i,
        {
            proof {
                assert(models[i as int] == value_model(arr@[i as int]));
            }
            if load_color_value(target, &arr[i]) {
                return true;
            }
            proof {
                lemma_load_color_failure(t0, models[i as int]);
            }
            i = i + 1;
        }
        return false;
    }
    false
}

impl Palette {
    /// Fills `self` with the colors from the given `table`: each of the 10
    /// role keys that holds a valid color overwrites its field, and every
    /// other field keeps its prior value.
    pub fn load(&mut self, table: &toml::map::Map<String, toml::Value>)
        ensures
            *final(self) == spec_palette_load(*old(self), table_model(*table)),
    {
        load_color(&mut self.background, table_get(table, "background"));
        load_color(&mut self.shadow, table_get(table, "shadow"));
        load_color(&mut self.view, table_get(table, "view"));
        load_color(&mut self.primary, table_get(table, "primary"));
        load_color(&mut self.secondary, table_get(table, "secondary"));
        load_color(&mut self.tertiary, table_get(table, "tertiary"));
        load_color(&mut self.title_primary, table_get(table, "title_primary"));
        load_color(&mut self.title_secondary, table_get(table, "title_secondary"));
        load_color(&mut self.highlight, table_get(table, "highlight"));
        load_color(&mut self.highlight_inactive, table_get(table, "highlight_inactive"));
    }
}

/// The palette that loading a configuration table on top of `p` yields: each
/// role key that holds a valid color overwrites its field.
pub open spec fn spec_palette_load(p: Palette, m: Map<Seq<char>, ConfigNode>) -> Palette {
    Palette {
        background: spec_loaded_color(p.background, spec_table_entry(m, "background"@)),
        shadow: spec_loaded_color(p.shadow, spec_table_entry(m, "shadow"@)),
        view: spec_loaded_color(p.view, spec_table_entry(m, "view"@)),
        primary: spec_loaded_color(p.primary, spec_table_entry(m, "primary"@)),
        secondary: spec_loaded_color(p.secondary, spec_table_entry(m, "secondary"@)),
        tertiary: spec_loaded_color(p.tertiary, spec_table_entry(m, "tertiary"@)),
        title_primary: spec_loaded_color(p.title_primary, spec_table_entry(m, "title_primary"@)),
        title_secondary: spec_loaded_color(
            p.title_secondary,
            spec_table_entry(m, "title_secondary"@),
        ),
        highlight: spec_loaded_color(p.highlight, spec_table_entry(m, "highlight"@)),
        highlight_inactive: spec_loaded_color(
            p.highlight_inactive,
            spec_table_entry(m, "highlight_inactive"@),
        ),
    }
}

/// The style an application will use: shadow flag, border style and color
/// palette.
#[derive(Clone, Debug, PartialEq, Eq, Structural)]
pub struct Theme {
    /// Whether stacked views should drop shadows.
    pub shadow: bool,
    /// How view borders should be drawn.
    pub borders: BorderStyle,
    /// The colors used through the application.
    pub colors: Palette,
}

/// The built-in default theme.
pub open spec fn spec_default_theme() -> Theme {
    Theme {
        shadow: true,
        borders: BorderStyle::Simple,
        colors: Palette {
            background: Color::Dark(BaseColor::Blue),
            shadow: Color::Dark(BaseColor::Black),
            view: Color::Dark(BaseColor::White),
            primary: Color::Dark(BaseColor::Black),
            secondary: Color::Dark(BaseColor::Blue),
            tertiary: Color::Light(BaseColor::White),
            title_primary: Color::Dark(BaseColor::Red),
            title_secondary: Color::Dark(BaseColor::Yellow),
            highlight: Color::Dark(BaseColor::Red),
            highlight_inactive: Color::Dark(BaseColor::Blue),
        },
    }
}

impl Default for Theme {
    /// The built-in default: shadows on, simple borders, and the documented
    /// default palette.
    fn default() -> (r: Self)
        ensures
            r == spec_default_theme(),
    {
        Theme {
            shadow: true,
            borders: BorderStyle::Simple,
            colors: Palette {
                background: Color::Dark(BaseColor::Blue),
                shadow: Color::Dark(BaseColor::Black),
                view: Color::Dark(BaseColor::White),
                primary: Color::Dark(BaseColor::Black),
                secondary: Color::Dark(BaseColor::Blue),
                tertiary: Color::Light(BaseColor::White),
                title_primary: Color::Dark(BaseColor::Red),
                title_secondary: Color::Dark(BaseColor::Yellow),
                highlight: Color::Dark(BaseColor::Red),
                highlight_inactive: Color::Dark(BaseColor::Blue),
            },
        }
    }
}

/// The theme that loading a configuration table on top of `t` yields: an
/// optional boolean `shadow`, an optional string `borders` (overwritten even
/// where the string is unrecognized, degrading to no borders), and an
/// optional `colors` table applied to the palette.  Keys of the wrong shape
/// are ignored.
pub open spec fn spec_theme_load(t: Theme, m: Map<Seq<char>, ConfigNode>) -> Theme {
    Theme {
        shadow: match spec_table_entry(m, "shadow"@) {
            Some(ConfigNode::Bool(b)) => b,
            _ => t.shadow,
        },
        borders: match spec_table_entry(m, "borders"@) {
            Some(ConfigNode::Str(s)) => spec_border_style_from(s),
            _ => t.borders,
        },
        colors: match spec_table_entry(m, "colors"@) {
            Some(ConfigNode::Table(inner)) => spec_palette_load(t.colors, inner),
            _ => t.colors,
        },
    }
}

/// A well-formed palette holds only well-formed colors.
pub open spec fn palette_wf(p: Palette) -> bool {
    &&& color_wf(p.background)
    &&& color_wf(p.shadow)
    &&& color_wf(p.view)
    &&& color_wf(p.primary)
    &&& color_wf(p.secondary)
    &&& color_wf(p.tertiary)
    &&& color_wf(p.title_primary)
    &&& color_wf(p.title_secondary)
    &&& color_wf(p.highlight)
    &&& color_wf(p.highlight_inactive)
}

/// A well-formed theme holds a well-formed palette.
pub open spec fn theme_wf(t: Theme) -> bool {
    palette_wf(t.colors)
}

/// Loading a configuration node into a well-formed color field yields a
/// well-formed color: the field either keeps its value or takes a color the
/// parser accepted.
pub proof fn lemma_load_color_wf(cur: Color, v: ConfigNode)
    ensures
        color_wf(cur) ==> color_wf(spec_load_color(cur, v).0),
    decreases v,
{
    match v {
        ConfigNode::Str(s) => lemma_parse_color_wf(s),
        ConfigNode::Arr(items) => lemma_load_color_seq_wf(cur, items, 0),
        _ => (),
    }
}

proof fn lemma_load_color_seq_wf(cur: Color, items: Seq<ConfigNode>, i: int)
    ensures
        color_wf(cur) ==> color_wf(spec_load_color_seq(cur, items, i).0),
    decreases items, items.len() - i,
{
    if 0 <= i < items.len() {
        lemma_load_color_wf(cur, items[i]);
        lemma_load_color_seq_wf(cur, items, i + 1);
    }
}

/// The default theme is well formed, and loading any configuration on top
/// of a well-formed theme keeps it well formed: the loader never writes a
/// low-resolution channel outside 0..=5.
pub proof fn lemma_theme_load_wf(t: Theme, m: Map<Seq<char>, ConfigNode>)
    ensures
        theme_wf(spec_default_theme()),
        theme_wf(t) ==> theme_wf(spec_theme_load(t, m)),
{
    if theme_wf(t) {
        match spec_table_entry(m, "colors"@) {
            Some(ConfigNode::Table(inner)) => {
                lemma_palette_load_wf(t.colors, inner);
            },
            _ => (),
        }
    }
}

/// Loading a configuration table into a well-formed palette keeps every
/// role's color well formed.
pub proof fn lemma_palette_load_wf(p: Palette, m: Map<Seq<char>, ConfigNode>)
    ensures
        palette_wf(p) ==> palette_wf(spec_palette_load(p, m)),
{
    if palette_wf(p) {
        lemma_loaded_color_wf(p.background, spec_table_entry(m, "background"@));
        lemma_loaded_color_wf(p.shadow, spec_table_entry(m, "shadow"@));
        lemma_loaded_color_wf(p.view, spec_table_entry(m, "view"@));
        lemma_loaded_color_wf(p.primary, spec_table_entry(m, "primary"@));
        lemma_loaded_color_wf(p.secondary, spec_table_entry(m, "secondary"@));
        lemma_loaded_color_wf(p.tertiary, spec_table_entry(m, "tertiary"@));
        lemma_loaded_color_wf(p.title_primary, spec_table_entry(m, "title_primary"@));
        lemma_loaded_color_wf(p.title_secondary, spec_table_entry(m, "title_secondary"@));
        lemma_loaded_color_wf(p.highlight, spec_table_entry(m, "highlight"@));
        lemma_loaded_color_wf(p.highlight_inactive, spec_table_entry(m, "highlight_inactive"@));
    }
}

proof fn lemma_loaded_color_wf(cur: Color, v: Option<ConfigNode>)
    ensures
        color_wf(cur) ==> color_wf(spec_loaded_color(cur, v)),
{
    match v {
        Some(node) => lemma_load_color_wf(cur, node),
        None => (),
    }
}

impl Theme {
    /// Applies a configuration table to `self`, field by field; keys that
    /// are absent or of the wrong shape leave their field untouched.
    pub fn load(&mut self, table: &toml::map::Map<String, toml::Value>)
        ensures
            *final(self) == spec_theme_load(*old(self), table_model(*table)),
    {
        if let Some(v) = table_get(table, "shadow") {
            if let Some(b) = value_as_bool(v) {
                self.shadow = b;
            }
        }
        if let Some(v) = table_get(table, "borders") {
            if let Some(s) = value_as_str(v) {
                self.borders = BorderStyle::from(s);
            }
        }
        if let Some(v) = table_get(table, "colors") {
            if let Some(inner) = value_as_table(v) {
                self.colors.load(inner);
            }
        }
    }
}

} // verus!
