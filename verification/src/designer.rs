//! The designer: the control palette, snapping and alignment, request-shaped
//! control and window mutations, and the object-inspector data.

use vstd::prelude::*;
use crate::text;
use crate::model::{
    self, ControlKind, EventBinding, Property, Rect, Ui2Control, Ui2Window, WindowDecorations,
};
use crate::ui2_options::{
    Ui2HorizontalScrollbarSide, Ui2HtmlCssDescription, Ui2ResizeMode, Ui2ScrollbarMode, Ui2Size,
    Ui2VerticalScrollbarSide, Ui2WindowOptions,
};

verus! {

pub struct PaletteCategory {
    pub name: String,
    pub items: Vec<PaletteItem>,
}

pub struct PaletteItem {
    pub kind: ControlKind,
    pub label: String,
    pub category: String,
    pub default_w: u32,
    pub default_h: u32,
    pub default_caption: String,
    pub default_properties: Vec<Property>,
}

pub struct DesignerState {
    pub active_window: u128,
    pub selected_control: Option<u128>,
    pub grid: u32,
    pub snap_to_grid: bool,
    pub palette: Vec<PaletteCategory>,
}

pub struct AddControlRequest {
    pub window_id: u128,
    pub kind: ControlKind,
    pub x: i32,
    pub y: i32,
    pub id: Option<u128>,
    pub name: Option<String>,
    pub caption: Option<String>,
    pub snap: Option<SnapSettings>,
}

pub struct MoveControlRequest {
    pub window_id: u128,
    pub control_id: u128,
    pub geometry: Rect,
}

#[derive(Debug, Clone, Copy, PartialEq, Eq, Structural)]
pub struct SnapSettings {
    pub enabled: bool,
    pub grid: u32,
}

#[derive(Debug, Clone, Copy, PartialEq, Eq, Structural)]
pub enum Alignment {
    Left,
    Top,
    Right,
    Bottom,
    HorizontalCenter,
    VerticalCenter,
    SameWidth,
    SameHeight,
}

pub struct UpdateControlRequest {
    pub window_id: u128,
    pub control_id: u128,
    pub name: Option<String>,
    pub caption: Option<String>,
    pub geometry: Option<Rect>,
    pub properties: Option<Vec<Property>>,
    pub events: Option<Vec<EventBinding>>,
}

pub struct UpdateWindowRequest {
    pub window_id: u128,
    pub caption: Option<String>,
    pub geometry: Option<Rect>,
    pub decorations: Option<WindowDecorations>,
    pub options: Option<Ui2WindowOptions>,
    pub ui_description: Option<Ui2HtmlCssDescription>,
}

pub struct ControlPropertyChangeRequest {
    pub window_id: u128,
    pub control_id: u128,
    pub key: String,
    pub value: Option<String>,
}

pub struct SelectControlRequest {
    pub window_id: u128,
    pub control_id: Option<u128>,
}

pub struct UpdateDesignerStateRequest {
    pub active_window: Option<u128>,
    pub selected_control: Option<u128>,
    pub clear_selection: bool,
    pub grid: Option<u32>,
    pub snap_to_grid: Option<bool>,
}

pub struct AlignControlsRequest {
    pub window_id: u128,
    pub control_ids: Vec<u128>,
    pub anchor_control_id: Option<u128>,
    pub alignment: Alignment,
}

// ---------------------------------------------------------------------------
// Palette
// ---------------------------------------------------------------------------

/// The properties a control dropped from the palette starts with.
pub open spec fn palette_properties(kind: ControlKind) -> Seq<(Seq<char>, Seq<char>)> {
    match kind {
        ControlKind::Button => seq![
            ("enabled"@, "true"@),
            ("default"@, "false"@),
            ("tab-stop"@, "true"@),
        ],
        ControlKind::Label => seq![
            ("auto-size"@, "true"@),
            ("text-align"@, "left"@),
            ("font-weight"@, "normal"@),
        ],
        ControlKind::TextBox => seq![
            ("placeholder"@, ""@),
            ("read-only"@, "false"@),
            ("max-length"@, "0"@),
            ("tab-stop"@, "true"@),
        ],
        ControlKind::CheckBox => seq![
            ("checked"@, "false"@),
            ("enabled"@, "true"@),
            ("tab-stop"@, "true"@),
        ],
        ControlKind::Panel => seq![
            ("border"@, "true"@),
            ("padding"@, "8"@),
            ("background"@, "surface"@),
        ],
        ControlKind::ListBox => seq![
            ("items"@, ""@),
            ("selected-index"@, "-1"@),
            ("multi-select"@, "false"@),
        ],
        ControlKind::Canvas => seq![("background"@, "transparent"@), ("double-buffered"@, "true"@)],
        ControlKind::Menu => seq![("items"@, "File,Edit,Help"@), ("enabled"@, "true"@)],
        ControlKind::Toolbar => seq![
            ("orientation"@, "horizontal"@),
            ("show-captions"@, "false"@),
            ("enabled"@, "true"@),
        ],
    }
}

fn props2(a: Property, b: Property) -> (v: Vec<Property>)
    ensures
        model::properties_view(v@) == seq![model::property_view(a), model::property_view(b)],
{
    let v = vec![a, b];
    proof {
        assert(model::properties_view(v@) =~= seq![
            model::property_view(v@[0]),
            model::property_view(v@[1]),
        ]);
    }
    v
}

fn props3(a: Property, b: Property, c: Property) -> (v: Vec<Property>)
    ensures
        model::properties_view(v@) == seq![
            model::property_view(a),
            model::property_view(b),
            model::property_view(c),
        ],
{
    let v = vec![a, b, c];
    proof {
        assert(model::properties_view(v@) =~= seq![
            model::property_view(v@[0]),
            model::property_view(v@[1]),
            model::property_view(v@[2]),
        ]);
    }
    v
}

fn props4(a: Property, b: Property, c: Property, d: Property) -> (v: Vec<Property>)
    ensures
        model::properties_view(v@) == seq![
            model::property_view(a),
            model::property_view(b),
            model::property_view(c),
            model::property_view(d),
        ],
{
    let v = vec![a, b, c, d];
    proof {
        assert(model::properties_view(v@) =~= seq![
            model::property_view(v@[0]),
            model::property_view(v@[1]),
            model::property_view(v@[2]),
            model::property_view(v@[3]),
        ]);
    }
    v
}

/// The properties the palette gives each control kind.
pub fn default_properties(kind: ControlKind) -> (v: Vec<Property>)
    ensures
        model::properties_view(v@) == palette_properties(kind),
{
    match kind {
        ControlKind::Button => props3(
            model::property("enabled", "true"),
            model::property("default", "false"),
            model::property("tab-stop", "true"),
        ),
        ControlKind::Label => props3(
            model::property("auto-size", "true"),
            model::property("text-align", "left"),
            model::property("font-weight", "normal"),
        ),
        ControlKind::TextBox => props4(
            model::property("placeholder", ""),
            model::property("read-only", "false"),
            model::property("max-length", "0"),
            model::property("tab-stop", "true"),
        ),
        ControlKind::CheckBox => props3(
            model::property("checked", "false"),
            model::property("enabled", "true"),
            model::property("tab-stop", "true"),
        ),
        ControlKind::Panel => props3(
            model::property("border", "true"),
            model::property("padding", "8"),
            model::property("background", "surface"),
        ),
        ControlKind::ListBox => props3(
            model::property("items", ""),
            model::property("selected-index", "-1"),
            model::property("multi-select", "false"),
        ),
        ControlKind::Canvas => props2(
            model::property("background", "transparent"),
            model::property("double-buffered", "true"),
        ),
        ControlKind::Menu => props2(
            model::property("items", "File,Edit,Help"),
            model::property("enabled", "true"),
        ),
        ControlKind::Toolbar => props3(
            model::property("orientation", "horizontal"),
            model::property("show-captions", "false"),
            model::property("enabled", "true"),
        ),
    }
}

/// A palette entry without its properties: kind, label, category, default
/// width and height, default caption.
pub struct PaletteEntry {
    pub kind: ControlKind,
    pub label: Seq<char>,
    pub category: Seq<char>,
    pub w: u32,
    pub h: u32,
    pub caption: Seq<char>,
}

pub open spec fn entry(
    kind: ControlKind,
    label: Seq<char>,
    category: Seq<char>,
    w: u32,
    h: u32,
    caption: Seq<char>,
) -> PaletteEntry {
    PaletteEntry { kind, label, category, w, h, caption }
}

/// The palette, category by category.
pub open spec fn palette_spec() -> Seq<(Seq<char>, Seq<PaletteEntry>)> {
    seq![
        (
            "Standard"@,
            seq![
                entry(ControlKind::Button, "Button"@, "Standard"@, 120, 34, "Button"@),
                entry(ControlKind::Label, "Label"@, "Standard"@, 160, 24, "Label"@),
                entry(ControlKind::TextBox, "Text Box"@, "Standard"@, 180, 32, ""@),
                entry(ControlKind::CheckBox, "Check Box"@, "Standard"@, 160, 30, "Check me"@),
            ],
        ),
        (
            "Containers"@,
            seq![
                entry(ControlKind::Panel, "Panel"@, "Containers"@, 240, 160, ""@),
                entry(ControlKind::Canvas, "Canvas"@, "Containers"@, 260, 180, ""@),
            ],
        ),
        ("Data"@, seq![entry(ControlKind::ListBox, "List Box"@, "Data"@, 220, 160, ""@)]),
        (
            "Navigation"@,
            seq![
                entry(ControlKind::Menu, "Menu"@, "Navigation"@, 360, 30, "File"@),
                entry(ControlKind::Toolbar, "Toolbar"@, "Navigation"@, 360, 42, "Toolbar"@),
            ],
        ),
    ]
}

/// All palette entries in category order.
pub open spec fn flat_palette_spec() -> Seq<PaletteEntry> {
    palette_spec()[0].1 + palette_spec()[1].1 + palette_spec()[2].1 + palette_spec()[3].1
}

/// A palette item that matches an entry and carries the kind's palette
/// properties.
pub open spec fn item_matches(i: PaletteItem, e: PaletteEntry) -> bool {
    &&& i.kind == e.kind
    &&& i.label@ == e.label
    &&& i.category@ == e.category
    &&& i.default_w == e.w
    &&& i.default_h == e.h
    &&& i.default_caption@ == e.caption
    &&& model::properties_view(i.default_properties@) == palette_properties(e.kind)
}

pub open spec fn items_match(items: Seq<PaletteItem>, entries: Seq<PaletteEntry>) -> bool {
    &&& items.len() == entries.len()
    &&& forall|k: int| 0 <= k < items.len() ==> item_matches(#[trigger] items[k], entries[k])
}

pub fn item(
    kind: ControlKind,
    label: &str,
    category: &str,
    default_w: u32,
    default_h: u32,
    default_caption: &str,
) -> (i: PaletteItem)
    ensures
        item_matches(i, entry(kind, label@, category@, default_w, default_h, default_caption@)),
{
    PaletteItem {
        kind,
        label: text::owned(label),
        category: text::owned(category),
        default_w,
        default_h,
        default_caption: text::owned(default_caption),
        default_properties: default_properties(kind),
    }
}

pub fn default_palette_categories() -> (v: Vec<PaletteCategory>)
    ensures
        v@.len() == palette_spec().len(),
        forall|k: int|
            0 <= k < v@.len() ==> (#[trigger] v@[k]).name@ == palette_spec()[k].0 && items_match(
                v@[k].items@,
                palette_spec()[k].1,
            ),
{
    let standard = vec![
        item(ControlKind::Button, "Button", "Standard", 120, 34, "Button"),
        item(ControlKind::Label, "Label", "Standard", 160, 24, "Label"),
        item(ControlKind::TextBox, "Text Box", "Standard", 180, 32, ""),
        item(ControlKind::CheckBox, "Check Box", "Standard", 160, 30, "Check me"),
    ];
    let containers = vec![
        item(ControlKind::Panel, "Panel", "Containers", 240, 160, ""),
        item(ControlKind::Canvas, "Canvas", "Containers", 260, 180, ""),
    ];
    let data = vec![item(ControlKind::ListBox, "List Box", "Data", 220, 160, "")];
    let navigation = vec![
        item(ControlKind::Menu, "Menu", "Navigation", 360, 30, "File"),
        item(ControlKind::Toolbar, "Toolbar", "Navigation", 360, 42, "Toolbar"),
    ];
    proof {
        assert(items_match(standard@, palette_spec()[0].1));
        assert(items_match(containers@, palette_spec()[1].1));
        assert(items_match(data@, palette_spec()[2].1));
        assert(items_match(navigation@, palette_spec()[3].1));
    }
    let v = vec![
        PaletteCategory { name: text::owned("Standard"), items: standard },
        PaletteCategory { name: text::owned("Containers"), items: containers },
        PaletteCategory { name: text::owned("Data"), items: data },
        PaletteCategory { name: text::owned("Navigation"), items: navigation },
    ];
    v
}

/// Every palette item, category by category.
pub fn default_palette() -> (v: Vec<PaletteItem>)
    ensures
        items_match(v@, flat_palette_spec()),
{
    let categories = default_palette_categories();
    let mut v: Vec<PaletteItem> = Vec::new();
    let mut c: usize = 0;
    let mut categories = categories;
    let ghost specs = palette_spec();
    let ghost mut done: Seq<PaletteEntry> = Seq::empty();
    while c < 4
        invariant
            c <= 4,
            categories@.len() == 4 - c,
            specs == palette_spec(),
            forall|k: int|
                0 <= k < categories@.len() ==> items_match(
                    (#[trigger] categories@[k]).items@,
                    specs[k + c].1,
                ),
            done == (if c == 0 {
                Seq::empty()
            } else if c == 1 {
                specs[0].1
            } else if c == 2 {
                specs[0].1 + specs[1].1
            } else if c == 3 {
                specs[0].1 + specs[1].1 + specs[2].1
            } else {
                flat_palette_spec()
            }),
            items_match(v@, done),
        decreases 4 - c,
    {
        let category = categories.remove(0);
        let ghost before = v@;
        let ghost add = specs[c as int].1;
        let mut items = category.items;
        assert(items_match(items@, add));
        v.append(&mut items);
        proof {
            assert forall|k: int| 0 <= k < v@.len() implies item_matches(
                #[trigger] v@[k],
                (done + add)[k],
            ) by {
                if k < before.len() {
                    assert(v@[k] == before[k]);
                } else {
                    assert(v@[k] == category.items@[k - before.len()]);
                }
            }
            done = done + add;
            assert forall|k: int| 0 <= k < categories@.len() implies items_match(
                (#[trigger] categories@[k]).items@,
                specs[k + c + 1].1,
            ) by {}
        }
        c += 1;
    }
    v
}

// ---------------------------------------------------------------------------
// Snapping and alignment
// ---------------------------------------------------------------------------

pub open spec fn abs(a: int) -> int {
    if a < 0 {
        -a
    } else {
        a
    }
}

/// Integer division that rounds toward zero, as Rust's `/` does.
pub open spec fn tdiv(a: int, b: int) -> int {
    let q = abs(a) / abs(b);
    if (a >= 0) == (b > 0) || a == 0 {
        q
    } else {
        -q
    }
}

pub open spec fn i32_fits(v: int) -> bool {
    i32::MIN <= v <= i32::MAX
}

fn tdiv_exec(a: i64, b: i64) -> (q: i64)
    requires
        b != 0,
        i32_fits(a as int),
        i32_fits(b as int),
    ensures
        q == tdiv(a as int, b as int),
{
    let ua: u64 = if a < 0 {
        (-a) as u64
    } else {
        a as u64
    };
    let ub: u64 = if b < 0 {
        (-b) as u64
    } else {
        b as u64
    };
    let q = ua / ub;
    proof {
        assert(q as int == abs(a as int) / abs(b as int));
        assert(q <= ua);
    }
    if (a >= 0) == (b > 0) || a == 0 {
        q as i64
    } else {
        -(q as i64)
    }
}

/// The grid `snap_value` uses: at least 1, taken as `i32` the way `as`
/// converts it.
pub open spec fn grid_i32(grid: u32) -> int {
    (if grid < 1 {
        1u32
    } else {
        grid
    }) as i32 as int
}

pub open spec fn snap_sum(value: i32, grid: u32) -> int {
    if value >= 0 {
        value + tdiv(grid_i32(grid), 2)
    } else {
        value - tdiv(grid_i32(grid), 2)
    }
}

/// Rounds `value` to the nearest multiple of the grid, halves away from zero.
pub open spec fn spec_snap_value(value: i32, grid: u32) -> int {
    tdiv(snap_sum(value, grid), grid_i32(grid)) * grid_i32(grid)
}

/// The inputs on which `snap_value` computes without overflow.
pub open spec fn snap_value_fits(value: i32, grid: u32) -> bool {
    &&& i32_fits(snap_sum(value, grid))
    &&& !(snap_sum(value, grid) == i32::MIN && grid_i32(grid) == -1)
    &&& i32_fits(spec_snap_value(value, grid))
}

pub fn snap_value(value: i32, grid: u32) -> (r: i32)
    requires
        snap_value_fits(value, grid),
    ensures
        r == spec_snap_value(value, grid),
{
    let g32: u32 = if grid < 1 {
        1
    } else {
        grid
    };
    let g: i64 = (g32 as i32) as i64;
    proof {
        assert(g as int == grid_i32(grid));
        assert(1u32 <= g32 ==> (g32 as i32) != 0i32) by (bit_vector);
    }
    let half = tdiv_exec(g, 2);
    let sum: i64 = if value >= 0 {
        value as i64 + half
    } else {
        value as i64 - half
    };
    let q = tdiv_exec(sum, g);
    proof {
        assert(abs(q as int) <= abs(sum as int));
    }
    (q * g) as i32
}

/// `snap_value` of a size, kept at least 1.
pub open spec fn spec_snap_size(value: u32, grid: u32) -> int {
    let s = spec_snap_value(value as i32, grid);
    if s < 1 {
        1
    } else {
        s
    }
}

pub fn snap_size(value: u32, grid: u32) -> (r: u32)
    requires
        snap_value_fits(value as i32, grid),
    ensures
        r == spec_snap_size(value, grid) as u32,
{
    let s = snap_value(value as i32, grid);
    if s < 1 {
        1
    } else {
        s as u32
    }
}

pub open spec fn snap_rect_fits(rect: Rect, settings: SnapSettings) -> bool {
    settings.enabled ==> {
        &&& snap_value_fits(rect.x, settings.grid)
        &&& snap_value_fits(rect.y, settings.grid)
        &&& snap_value_fits(rect.w as i32, settings.grid)
        &&& snap_value_fits(rect.h as i32, settings.grid)
    }
}

pub open spec fn spec_snap_rect(rect: Rect, settings: SnapSettings) -> Rect {
    if !settings.enabled {
        rect
    } else {
        Rect {
            x: spec_snap_value(rect.x, settings.grid) as i32,
            y: spec_snap_value(rect.y, settings.grid) as i32,
            w: spec_snap_size(rect.w, settings.grid) as u32,
            h: spec_snap_size(rect.h, settings.grid) as u32,
        }
    }
}

pub fn snap_rect(rect: Rect, settings: SnapSettings) -> (r: Rect)
    requires
        snap_rect_fits(rect, settings),
    ensures
        r == spec_snap_rect(rect, settings),
{
    if !settings.enabled {
        return rect;
    }
    Rect {
        x: snap_value(rect.x, settings.grid),
        y: snap_value(rect.y, settings.grid),
        w: snap_size(rect.w, settings.grid),
        h: snap_size(rect.h, settings.grid),
    }
}

/// Rounds to the nearest multiple of `grid`, with the sum divided toward zero.
pub open spec fn spec_snap(value: i32, grid: i32) -> int {
    tdiv(value + tdiv(grid as int, 2), grid as int) * grid
}

pub open spec fn snap_fits(value: i32, grid: i32) -> bool {
    &&& grid != 0
    &&& i32_fits(value + tdiv(grid as int, 2))
    &&& !(value + tdiv(grid as int, 2) == i32::MIN && grid == -1)
    &&& i32_fits(spec_snap(value, grid))
}

pub fn snap(value: i32, grid: i32) -> (r: i32)
    requires
        snap_fits(value, grid),
    ensures
        r == spec_snap(value, grid),
{
    let g = grid as i64;
    let half = tdiv_exec(g, 2);
    let sum = value as i64 + half;
    let q = tdiv_exec(sum, g);
    proof {
        assert(abs(q as int) <= abs(sum as int));
    }
    (q * g) as i32
}

/// Where `align_rect` moves or resizes `rect` so that it lines up with
/// `anchor`.
pub open spec fn spec_align_rect(rect: Rect, anchor: Rect, alignment: Alignment) -> Rect {
    match alignment {
        Alignment::Left => Rect { x: anchor.x, ..rect },
        Alignment::Top => Rect { y: anchor.y, ..rect },
        Alignment::Right => Rect {
            x: (anchor.x + (anchor.w as i32) - (rect.w as i32)) as i32,
            ..rect
        },
        Alignment::Bottom => Rect {
            y: (anchor.y + (anchor.h as i32) - (rect.h as i32)) as i32,
            ..rect
        },
        Alignment::HorizontalCenter => Rect {
            x: (anchor.x + tdiv(anchor.w as i32 as int, 2) - tdiv(rect.w as i32 as int, 2)) as i32,
            ..rect
        },
        Alignment::VerticalCenter => Rect {
            y: (anchor.y + tdiv(anchor.h as i32 as int, 2) - tdiv(rect.h as i32 as int, 2)) as i32,
            ..rect
        },
        Alignment::SameWidth => Rect { w: anchor.w, ..rect },
        Alignment::SameHeight => Rect { h: anchor.h, ..rect },
    }
}

/// The inputs on which `align_rect` computes without overflow.
pub open spec fn align_fits(rect: Rect, anchor: Rect, alignment: Alignment) -> bool {
    match alignment {
        Alignment::Right => i32_fits(anchor.x + (anchor.w as i32)) && i32_fits(
            anchor.x + (anchor.w as i32) - (rect.w as i32),
        ),
        Alignment::Bottom => i32_fits(anchor.y + (anchor.h as i32)) && i32_fits(
            anchor.y + (anchor.h as i32) - (rect.h as i32),
        ),
        Alignment::HorizontalCenter => i32_fits(anchor.x + tdiv(anchor.w as i32 as int, 2))
            && i32_fits(anchor.x + tdiv(anchor.w as i32 as int, 2) - tdiv(rect.w as i32 as int, 2)),
        Alignment::VerticalCenter => i32_fits(anchor.y + tdiv(anchor.h as i32 as int, 2))
            && i32_fits(anchor.y + tdiv(anchor.h as i32 as int, 2) - tdiv(rect.h as i32 as int, 2)),
        _ => true,
    }
}

pub fn align_rect(rect: Rect, anchor: Rect, alignment: Alignment) -> (r: Rect)
    requires
        align_fits(rect, anchor, alignment),
    ensures
        r == spec_align_rect(rect, anchor, alignment),
{
    let mut next = rect;
    match alignment {
        Alignment::Left => next.x = anchor.x,
        Alignment::Top => next.y = anchor.y,
        Alignment::Right => next.x = anchor.x + anchor.w as i32 - rect.w as i32,
        Alignment::Bottom => next.y = anchor.y + anchor.h as i32 - rect.h as i32,
        Alignment::HorizontalCenter => {
            let a = tdiv_exec(anchor.w as i32 as i64, 2);
            let b = tdiv_exec(rect.w as i32 as i64, 2);
            next.x = anchor.x + a as i32 - b as i32;
        },
        Alignment::VerticalCenter => {
            let a = tdiv_exec(anchor.h as i32 as i64, 2);
            let b = tdiv_exec(rect.h as i32 as i64, 2);
            next.y = anchor.y + a as i32 - b as i32;
        },
        Alignment::SameWidth => next.w = anchor.w,
        Alignment::SameHeight => next.h = anchor.h,
    }
    next
}


// ---------------------------------------------------------------------------
// Control names
// ---------------------------------------------------------------------------

/// The Debug name of a control kind, which `add_control` numbers.
pub open spec fn kind_debug_name(kind: ControlKind) -> Seq<char> {
    match kind {
        ControlKind::Button => "Button"@,
        ControlKind::Label => "Label"@,
        ControlKind::TextBox => "TextBox"@,
        ControlKind::CheckBox => "CheckBox"@,
        ControlKind::Panel => "Panel"@,
        ControlKind::ListBox => "ListBox"@,
        ControlKind::Canvas => "Canvas"@,
        ControlKind::Menu => "Menu"@,
        ControlKind::Toolbar => "Toolbar"@,
    }
}

pub fn kind_debug_str(kind: ControlKind) -> (s: &'static str)
    ensures
        s@ == kind_debug_name(kind),
{
    match kind {
        ControlKind::Button => "Button",
        ControlKind::Label => "Label",
        ControlKind::TextBox => "TextBox",
        ControlKind::CheckBox => "CheckBox",
        ControlKind::Panel => "Panel",
        ControlKind::ListBox => "ListBox",
        ControlKind::Canvas => "Canvas",
        ControlKind::Menu => "Menu",
        ControlKind::Toolbar => "Toolbar",
    }
}

/// One character of identifier sanitizing: letters and digits are kept in
/// lowercase, and anything else becomes `_` unless the text is empty or
/// already ends with `_`.
pub open spec fn sanitize_step(out: Seq<char>, c: char) -> Seq<char> {
    if text::is_ascii_alnum(c) {
        out.push(text::ascii_lower(c))
    } else if out.len() > 0 && out.last() != '_' {
        out.push('_')
    } else {
        out
    }
}

pub open spec fn sanitize_run(s: Seq<char>) -> Seq<char>
    decreases s.len(),
{
    if s.len() == 0 {
        Seq::empty()
    } else {
        sanitize_step(sanitize_run(s.drop_last()), s.last())
    }
}

/// A lowercase identifier made of the letters and digits of `s`, with `_`
/// between runs, `control` when nothing is left, and `c_` before a leading
/// digit.
pub open spec fn spec_sanitize_identifier(s: Seq<char>) -> Seq<char> {
    model::identifier_finish(text::trim_matches_seq(sanitize_run(s), '_'))
}

pub fn sanitize_identifier(input: &str) -> (r: String)
    ensures
        r@ == spec_sanitize_identifier(input@),
{
    let chars = text::chars_of(input);
    let mut out: Vec<char> = Vec::new();
    let mut i: usize = 0;
    while i < chars.len()
        invariant
            i <= chars.len(),
            chars@ == input@,
            sanitize_run(chars@.take(i as int)) == out@,
        decreases chars.len() - i,
    {
        let c = chars[i];
        proof {
            assert(chars@.take(i + 1).drop_last() =~= chars@.take(i as int));
        }
        if text::ascii_alnum(c) {
            out.push(text::to_ascii_lower(c));
        } else if out.len() > 0 && out[out.len() - 1] != '_' {
            out.push('_');
        }
        i += 1;
    }
    proof {
        assert(chars@.take(chars.len() as int) =~= chars@);
    }
    let trimmed = text::trim_matches_chars(&out, '_');
    model::finish_identifier(&trimmed)
}

pub open spec fn name_taken(controls: Seq<Ui2Control>, name: Seq<char>) -> bool {
    exists|j: int| 0 <= j < controls.len() && (#[trigger] controls[j]).name@ == name
}

/// `name` is `stem` followed by the least positive number that no control
/// uses yet.
pub open spec fn is_next_numbered_name(
    controls: Seq<Ui2Control>,
    stem: Seq<char>,
    n: nat,
    name: Seq<char>,
) -> bool {
    &&& n >= 1
    &&& name == stem + text::nat_decimal(n)
    &&& !name_taken(controls, name)
    &&& forall|m: nat|
        1 <= m < n ==> #[trigger] name_taken(controls, stem + text::nat_decimal(m))
}

/// Among the first `controls.len() + 1` numbered names at least one is free.
proof fn lemma_numbered_name_free(controls: Seq<Ui2Control>, stem: Seq<char>)
    ensures
        exists|n: nat|
            1 <= n <= controls.len() + 1 && !#[trigger] name_taken(
                controls,
                stem + text::nat_decimal(n),
            ),
{
    if forall|n: nat|
        1 <= n <= controls.len() + 1 ==> #[trigger] name_taken(
            controls,
            stem + text::nat_decimal(n),
        ) {
        let len = controls.len() as int;
        let a = vstd::set_lib::set_int_range(1, len + 2);
        let f = |n: int|
            choose|j: int|
                0 <= j < controls.len() && (#[trigger] controls[j]).name@ == stem
                    + text::nat_decimal(n as nat);
        vstd::set_lib::lemma_int_range(1, len + 2);
        vstd::set_lib::lemma_int_range(0, len);
        assert forall|n: int| a.contains(n) implies 0 <= #[trigger] f(n) < len && controls[f(
            n,
        )].name@ == stem + text::nat_decimal(n as nat) by {
            assert(name_taken(controls, stem + text::nat_decimal(n as nat)));
        }
        assert(vstd::relations::injective_on(f, a)) by {
            assert forall|x1: int, x2: int|
                a.contains(x1) && a.contains(x2) && #[trigger] f(x1) == #[trigger] f(
                    x2,
                ) implies x1 == x2 by {
                text::lemma_numbered_injective(stem, x1 as nat, x2 as nat);
            }
        }
        let img = a.map(f);
        vstd::set_lib::lemma_map_size(a, img, f);
        assert(img.subset_of(vstd::set_lib::set_int_range(0, len)));
        vstd::set_lib::lemma_len_subset(img, vstd::set_lib::set_int_range(0, len));
    }
}

fn control_name_taken(controls: &Vec<Ui2Control>, name: &String) -> (b: bool)
    ensures
        b == name_taken(controls@, name@),
{
    let mut j: usize = 0;
    while j < controls.len()
        invariant
            j <= controls.len(),
            forall|k: int| 0 <= k < j ==> (#[trigger] controls@[k]).name@ != name@,
        decreases controls.len() - j,
    {
        if controls[j].name == *name {
            return true;
        }
        j += 1;
    }
    false
}

pub fn unique_control_name(window: &Ui2Window, base: &str) -> (r: String)
    ensures
        exists|n: nat|
            is_next_numbered_name(window.controls@, spec_sanitize_identifier(base@), n, r@),
{
    let stem = sanitize_identifier(base);
    let len = window.controls.len();
    let mut n: u128 = 1;
    while n <= len as u128 + 1
        invariant
            1 <= n <= len as u128 + 2,
            len == window.controls@.len(),
            stem@ == spec_sanitize_identifier(base@),
            forall|m: nat| 1 <= m < n ==> #[trigger] name_taken(
                window.controls@,
                stem@ + text::nat_decimal(m),
            ),
        decreases len as u128 + 2 - n,
    {
        let mut candidate = stem.clone();
        text::push_u128(&mut candidate, n);
        if !control_name_taken(&window.controls, &candidate) {
            proof {
                assert(is_next_numbered_name(window.controls@, stem@, n as nat, candidate@));
            }
            return candidate;
        }
        n += 1;
    }
    proof {
        lemma_numbered_name_free(window.controls@, stem@);
        let k = choose|k: nat|
            1 <= k <= window.controls@.len() + 1 && !#[trigger] name_taken(
                window.controls@,
                stem@ + text::nat_decimal(k),
            );
        assert(name_taken(window.controls@, stem@ + text::nat_decimal(k)));
    }
    stem
}


// ---------------------------------------------------------------------------
// Control mutations
// ---------------------------------------------------------------------------

/// `i` is the first position of a control with the given id.
pub open spec fn first_control_at(controls: Seq<Ui2Control>, id: u128, i: int) -> bool {
    &&& 0 <= i < controls.len()
    &&& controls[i].id == id
    &&& forall|j: int| 0 <= j < i ==> (#[trigger] controls[j]).id != id
}

pub open spec fn has_control(controls: Seq<Ui2Control>, id: u128) -> bool {
    exists|j: int| 0 <= j < controls.len() && (#[trigger] controls[j]).id == id
}

pub fn find_control(controls: &Vec<Ui2Control>, id: u128) -> (r: Option<usize>)
    ensures
        match r {
            Some(i) => first_control_at(controls@, id, i as int),
            None => !has_control(controls@, id),
        },
{
    let mut i: usize = 0;
    while i < controls.len()
        invariant
            i <= controls.len(),
            forall|j: int| 0 <= j < i ==> (#[trigger] controls@[j]).id != id,
        decreases controls.len() - i,
    {
        if controls[i].id == id {
            return Some(i);
        }
        i += 1;
    }
    None
}

/// Two windows agree on everything but their controls.
pub open spec fn same_but_controls(a: Ui2Window, b: Ui2Window) -> bool {
    &&& a.id == b.id
    &&& a.name == b.name
    &&& a.caption == b.caption
    &&& a.title_twemoji == b.title_twemoji
    &&& a.geometry == b.geometry
    &&& a.decorations == b.decorations
    &&& a.options == b.options
    &&& a.ui_description == b.ui_description
}

/// Two controls agree on everything but their geometry.
pub open spec fn same_but_geometry(a: Ui2Control, b: Ui2Control) -> bool {
    &&& a.id == b.id
    &&& a.kind == b.kind
    &&& a.name == b.name
    &&& a.caption == b.caption
    &&& a.properties == b.properties
    &&& a.events == b.events
}

/// Where in the palette each kind stands.
pub open spec fn palette_index(kind: ControlKind) -> int {
    match kind {
        ControlKind::Button => 0,
        ControlKind::Label => 1,
        ControlKind::TextBox => 2,
        ControlKind::CheckBox => 3,
        ControlKind::Panel => 4,
        ControlKind::Canvas => 5,
        ControlKind::ListBox => 6,
        ControlKind::Menu => 7,
        ControlKind::Toolbar => 8,
    }
}

/// The palette entry of a kind (each kind has exactly one).
pub open spec fn palette_entry(kind: ControlKind) -> PaletteEntry {
    flat_palette_spec()[palette_index(kind)]
}

fn palette_position(kind: ControlKind) -> (i: usize)
    ensures
        i == palette_index(kind),
        flat_palette_spec()[i as int].kind == kind,
{
    match kind {
        ControlKind::Button => 0,
        ControlKind::Label => 1,
        ControlKind::TextBox => 2,
        ControlKind::CheckBox => 3,
        ControlKind::Panel => 4,
        ControlKind::Canvas => 5,
        ControlKind::ListBox => 6,
        ControlKind::Menu => 7,
        ControlKind::Toolbar => 8,
    }
}

/// A name given in a request counts when it is not blank.
pub open spec fn name_given(name: Option<String>) -> bool {
    name is Some && text::trim_seq(name->0@).len() > 0
}

/// Where `add_control` places a new control: snapped to the requested grid,
/// left as asked when snapping is off, and snapped to 8 when nothing is said.
pub open spec fn add_position(request: AddControlRequest) -> (int, int) {
    match request.snap {
        Some(settings) => if settings.enabled {
            (
                spec_snap_value(request.x, settings.grid),
                spec_snap_value(request.y, settings.grid),
            )
        } else {
            (request.x as int, request.y as int)
        },
        None => (spec_snap(request.x, 8), spec_snap(request.y, 8)),
    }
}

pub open spec fn add_position_fits(request: AddControlRequest) -> bool {
    match request.snap {
        Some(settings) => settings.enabled ==> snap_value_fits(request.x, settings.grid)
            && snap_value_fits(request.y, settings.grid),
        None => snap_fits(request.x, 8) && snap_fits(request.y, 8),
    }
}

/// Whether the product of a quotient and a grid of `i32` range fits `i32`.
fn product_fits(q: i64, g: i64) -> (b: bool)
    requires
        -0x8000_0000 <= q <= 0x8000_0000,
        i32_fits(g as int),
    ensures
        b == i32_fits(q * g),
{
    assert(-0x4000_0000_0000_0000 <= q * g <= 0x4000_0000_0000_0000) by (nonlinear_arith)
        requires
            -0x8000_0000 <= q <= 0x8000_0000,
            -0x8000_0000 <= g <= 0x7fff_ffff,
    ;
    let r = q * g;
    -0x8000_0000 <= r && r <= 0x7fff_ffff
}

/// Decides `snap_value_fits`: whether `snap_value` can snap `value` to
/// `grid` within `i32`.
pub fn snap_value_fits_exec(value: i32, grid: u32) -> (b: bool)
    ensures
        b == snap_value_fits(value, grid),
{
    let g32: u32 = if grid < 1 {
        1
    } else {
        grid
    };
    let g: i64 = (g32 as i32) as i64;
    proof {
        assert(g as int == grid_i32(grid));
        assert(1u32 <= g32 ==> (g32 as i32) != 0i32) by (bit_vector);
    }
    let half = tdiv_exec(g, 2);
    let sum: i64 = if value >= 0 {
        value as i64 + half
    } else {
        value as i64 - half
    };
    proof {
        assert(sum as int == snap_sum(value, grid));
    }
    if sum < -0x8000_0000 || sum > 0x7fff_ffff {
        return false;
    }
    if sum == -0x8000_0000 && g == -1 {
        return false;
    }
    let q = tdiv_exec(sum, g);
    proof {
        assert(abs(q as int) <= abs(sum as int));
    }
    product_fits(q, g)
}

/// Decides `snap_fits`: whether `snap` can round `value` to `grid` within
/// `i32`.
pub fn snap_fits_exec(value: i32, grid: i32) -> (b: bool)
    ensures
        b == snap_fits(value, grid),
{
    if grid == 0 {
        return false;
    }
    let g = grid as i64;
    let half = tdiv_exec(g, 2);
    let sum = value as i64 + half;
    if sum < -0x8000_0000 || sum > 0x7fff_ffff {
        return false;
    }
    if sum == -0x8000_0000 && g == -1 {
        return false;
    }
    let q = tdiv_exec(sum, g);
    proof {
        assert(abs(q as int) <= abs(sum as int));
    }
    product_fits(q, g)
}

/// Decides `add_position_fits`: whether `add_control` can place the
/// requested control within `i32`.
pub fn add_position_ok(request: &AddControlRequest) -> (b: bool)
    ensures
        b == add_position_fits(*request),
{
    match request.snap {
        Some(settings) => !settings.enabled || (snap_value_fits_exec(request.x, settings.grid)
            && snap_value_fits_exec(request.y, settings.grid)),
        None => snap_fits_exec(request.x, 8) && snap_fits_exec(request.y, 8),
    }
}

/// The control `add_control` appends for a request, given the controls that
/// were there before.
pub open spec fn is_added_control(
    c: Ui2Control,
    request: AddControlRequest,
    before: Seq<Ui2Control>,
) -> bool {
    let e = palette_entry(request.kind);
    let caption = match request.caption {
        Some(cap) => cap@,
        None => e.caption,
    };
    &&& c.kind == request.kind
    &&& (if name_given(request.name) {
        c.name@ == request.name->0@
    } else {
        exists|n: nat|
            is_next_numbered_name(
                before,
                spec_sanitize_identifier(kind_debug_name(request.kind)),
                n,
                c.name@,
            )
    })
    &&& c.caption@ == (if caption.len() == 0 {
        e.label
    } else {
        caption
    })
    &&& c.geometry.x == add_position(request).0
    &&& c.geometry.y == add_position(request).1
    &&& c.geometry.w == e.w
    &&& c.geometry.h == e.h
    &&& model::properties_view(c.properties@) == palette_properties(request.kind)
    &&& model::events_view(c.events@) == seq![
        (
            model::default_event(request.kind),
            model::spec_handler_name(c.name@, model::default_event(request.kind)),
        ),
    ]
    &&& (request.id is Some ==> c.id == request.id->0)
}

/// Adds a control from the palette to the window the request names, and
/// returns its id; `None` when the request names another window.
pub fn add_control(window: &mut Ui2Window, request: AddControlRequest) -> (r: Option<u128>)
    requires
        add_position_fits(request),
    ensures
        old(window).id != request.window_id ==> r is None && *final(window) == *old(window),
        old(window).id == request.window_id ==> {
            &&& r is Some
            &&& same_but_controls(*final(window), *old(window))
            &&& final(window).controls@.len() == old(window).controls@.len() + 1
            &&& final(window).controls@.take(old(window).controls@.len() as int)
                == old(window).controls@
            &&& is_added_control(final(window).controls@.last(), request, old(window).controls@)
            &&& r->0 == final(window).controls@.last().id
        },
{
    if window.id != request.window_id {
        return None;
    }
    let palette = default_palette();
    let idx = palette_position(request.kind);
    let item = &palette[idx];
    proof {
        assert(item_matches(palette@[idx as int], flat_palette_spec()[idx as int]));
    }
    let name = match request.name {
        Some(given) => {
            let given_chars = text::chars_of(given.as_str());
            let trimmed = text::trim_chars(&given_chars);
            if trimmed.len() > 0 {
                given
            } else {
                let base = kind_debug_str(request.kind);
                unique_control_name(window, base)
            }
        },
        None => {
            let base = kind_debug_str(request.kind);
            unique_control_name(window, base)
        },
    };
    let caption = match request.caption {
        Some(c) => c,
        None => item.default_caption.clone(),
    };
    let (x, y) = match request.snap {
        Some(settings) => if settings.enabled {
            (snap_value(request.x, settings.grid), snap_value(request.y, settings.grid))
        } else {
            (request.x, request.y)
        },
        None => (snap(request.x, 8), snap(request.y, 8)),
    };
    let mut control = Ui2Control::new(
        request.kind,
        name.as_str(),
        caption.as_str(),
        x,
        y,
        item.default_w,
        item.default_h,
    );
    match request.id {
        Some(id) => {
            control.id = id;
        },
        None => {},
    }
    if control.caption.as_str().is_empty() {
        control.caption = item.label.clone();
    }
    control.properties = model::duplicate_properties(&item.default_properties);
    let id = control.id;
    let ghost before = window.controls@;
    window.controls.push(control);
    proof {
        assert(window.controls@.take(before.len() as int) =~= before);
    }
    Some(id)
}

/// Moves a control, snapping its position to 8 and keeping it at least 8x8.
/// Returns whether the window and control were found.
pub fn move_control(window: &mut Ui2Window, request: MoveControlRequest) -> (r: bool)
    requires
        snap_fits(request.geometry.x, 8),
        snap_fits(request.geometry.y, 8),
    ensures
        r == (old(window).id == request.window_id && has_control(
            old(window).controls@,
            request.control_id,
        )),
        !r ==> *final(window) == *old(window),
        r ==> exists|i: int|
            {
                &&& first_control_at(old(window).controls@, request.control_id, i)
                &&& same_but_controls(*final(window), *old(window))
                &&& final(window).controls@.len() == old(window).controls@.len()
                &&& forall|k: int|
                    0 <= k < old(window).controls@.len() && k != i ==> final(window).controls@[k]
                        == old(window).controls@[k]
                &&& same_but_geometry(final(window).controls@[i], old(window).controls@[i])
                &&& final(window).controls@[i].geometry == Rect {
                    x: spec_snap(request.geometry.x, 8) as i32,
                    y: spec_snap(request.geometry.y, 8) as i32,
                    w: if request.geometry.w < 8 {
                        8
                    } else {
                        request.geometry.w
                    },
                    h: if request.geometry.h < 8 {
                        8
                    } else {
                        request.geometry.h
                    },
                }
            },
{
    if window.id != request.window_id {
        return false;
    }
    let found = find_control(&window.controls, request.control_id);
    match found {
        None => false,
        Some(i) => {
            let ghost before = window.controls@;
            let mut control = window.controls.remove(i);
            control.geometry = Rect {
                x: snap(request.geometry.x, 8),
                y: snap(request.geometry.y, 8),
                w: if request.geometry.w < 8 {
                    8
                } else {
                    request.geometry.w
                },
                h: if request.geometry.h < 8 {
                    8
                } else {
                    request.geometry.h
                },
            };
            window.controls.insert(i, control);
            proof {
                assert forall|k: int|
                    0 <= k < before.len() && k != i implies window.controls@[k] == before[k] by {
                    if k < i {
                    } else {
                    }
                }
            }
            true
        },
    }
}


/// The event list after a rename: the same events, each bound to the handler
/// generated from the new name.
pub open spec fn renamed_events(
    events: Seq<(Seq<char>, Seq<char>)>,
    name: Seq<char>,
) -> Seq<(Seq<char>, Seq<char>)> {
    events.map_values(|e: (Seq<char>, Seq<char>)| (e.0, model::spec_handler_name(name, e.0)))
}

fn rebind_events(events: &Vec<EventBinding>, name: &str) -> (r: Vec<EventBinding>)
    ensures
        model::events_view(r@) == renamed_events(model::events_view(events@), name@),
{
    let mut r: Vec<EventBinding> = Vec::new();
    let mut i: usize = 0;
    while i < events.len()
        invariant
            i <= events.len(),
            model::events_view(r@) == renamed_events(model::events_view(events@.take(i as int)), name@),
        decreases events.len() - i,
    {
        let handler = model::event_handler_name(name, events[i].event.as_str());
        let e = EventBinding { event: events[i].event.clone(), handler };
        let ghost before = r@;
        r.push(e);
        proof {
            assert(events@.take(i + 1) =~= events@.take(i as int).push(events@[i as int]));
            assert(model::events_view(r@) =~= model::events_view(before).push(model::event_view(e)));
            assert(renamed_events(model::events_view(events@.take(i + 1)), name@) =~= renamed_events(
                model::events_view(events@.take(i as int)),
                name@,
            ).push(model::event_view(e)));
        }
        i += 1;
    }
    proof {
        assert(events@.take(events.len() as int) =~= events@);
    }
    r
}

/// The control `update_control` leaves in place of `c`.
pub open spec fn is_updated_control(n: Ui2Control, c: Ui2Control, request: UpdateControlRequest) -> bool {
    let name = match request.name {
        Some(given) => spec_sanitize_identifier(given@),
        None => c.name@,
    };
    &&& n.id == c.id
    &&& n.kind == c.kind
    &&& n.name@ == name
    &&& n.caption@ == (match request.caption {
        Some(cap) => cap@,
        None => c.caption@,
    })
    &&& n.geometry == (match request.geometry {
        Some(g) => g,
        None => c.geometry,
    })
    &&& model::properties_view(n.properties@) == (match request.properties {
        Some(p) => model::properties_view(p@),
        None => model::properties_view(c.properties@),
    })
    &&& model::events_view(n.events@) == (match request.events {
        Some(e) => model::events_view(e@),
        None => if request.name is Some {
            renamed_events(model::events_view(c.events@), name)
        } else {
            model::events_view(c.events@)
        },
    })
}

/// The control at `i` became `is_updated_control` of itself and nothing else
/// in the window changed.
pub open spec fn only_control_changed(
    after: Ui2Window,
    before: Ui2Window,
    i: int,
) -> bool {
    &&& same_but_controls(after, before)
    &&& after.controls@.len() == before.controls@.len()
    &&& forall|k: int|
        0 <= k < before.controls@.len() && k != i ==> after.controls@[k] == before.controls@[k]
}

/// Renames (regenerating handler names), re-captions, moves, or replaces the
/// properties or events of a control. Returns whether it was found.
pub fn update_control(window: &mut Ui2Window, request: UpdateControlRequest) -> (r: bool)
    ensures
        r == (old(window).id == request.window_id && has_control(
            old(window).controls@,
            request.control_id,
        )),
        !r ==> *final(window) == *old(window),
        r ==> exists|i: int|
            {
                &&& first_control_at(old(window).controls@, request.control_id, i)
                &&& only_control_changed(*final(window), *old(window), i)
                &&& is_updated_control(final(window).controls@[i], old(window).controls@[i], request)
            },
{
    if window.id != request.window_id {
        return false;
    }
    let found = find_control(&window.controls, request.control_id);
    match found {
        None => false,
        Some(i) => {
            let ghost before = window.controls@;
            let mut control = window.controls.remove(i);
            let ghost old_control = control;
            match request.name {
                Some(name) => {
                    control.name = sanitize_identifier(name.as_str());
                    control.events = rebind_events(&control.events, control.name.as_str());
                },
                None => {},
            }
            match request.caption {
                Some(caption) => {
                    control.caption = caption;
                },
                None => {},
            }
            match request.geometry {
                Some(geometry) => {
                    control.geometry = geometry;
                },
                None => {},
            }
            match request.properties {
                Some(properties) => {
                    control.properties = properties;
                },
                None => {},
            }
            match request.events {
                Some(events) => {
                    control.events = events;
                },
                None => {},
            }
            proof {
                assert(is_updated_control(control, old_control, request));
            }
            window.controls.insert(i, control);
            proof {
                assert forall|k: int|
                    0 <= k < before.len() && k != i implies window.controls@[k] == before[k] by {
                    if k < i {
                    } else {
                    }
                }
                assert(first_control_at(old(window).controls@, request.control_id, i as int));
                assert(only_control_changed(*window, *old(window), i as int));
                assert(is_updated_control(window.controls@[i as int], old(window).controls@[i as int], request));
            }
            true
        },
    }
}

/// The window `update_window` leaves: each field the request gives replaces
/// the old one.
pub open spec fn updated_window(w: Ui2Window, request: UpdateWindowRequest) -> Ui2Window {
    Ui2Window {
        caption: match request.caption {
            Some(c) => c,
            None => w.caption,
        },
        geometry: match request.geometry {
            Some(g) => g,
            None => w.geometry,
        },
        decorations: match request.decorations {
            Some(d) => d,
            None => w.decorations,
        },
        options: match request.options {
            Some(o) => o,
            None => w.options,
        },
        ui_description: match request.ui_description {
            Some(d) => d,
            None => w.ui_description,
        },
        ..w
    }
}

fn replace_caption(window: &mut Ui2Window, caption: Option<String>)
    ensures
        *final(window) == (Ui2Window {
            caption: match caption {
                Some(c) => c,
                None => old(window).caption,
            },
            ..*old(window)
        }),
{
    match caption {
        Some(c) => {
            window.caption = c;
        },
        None => {},
    }
}

fn replace_geometry(window: &mut Ui2Window, geometry: Option<Rect>)
    ensures
        *final(window) == (Ui2Window {
            geometry: match geometry {
                Some(g) => g,
                None => old(window).geometry,
            },
            ..*old(window)
        }),
{
    match geometry {
        Some(g) => {
            window.geometry = g;
        },
        None => {},
    }
}

fn replace_decorations(window: &mut Ui2Window, decorations: Option<WindowDecorations>)
    ensures
        *final(window) == (Ui2Window {
            decorations: match decorations {
                Some(d) => d,
                None => old(window).decorations,
            },
            ..*old(window)
        }),
{
    match decorations {
        Some(d) => {
            window.decorations = d;
        },
        None => {},
    }
}

fn replace_options(window: &mut Ui2Window, options: Option<Ui2WindowOptions>)
    ensures
        *final(window) == (Ui2Window {
            options: match options {
                Some(o) => o,
                None => old(window).options,
            },
            ..*old(window)
        }),
{
    match options {
        Some(o) => {
            window.options = o;
        },
        None => {},
    }
}

fn replace_description(window: &mut Ui2Window, ui_description: Option<Ui2HtmlCssDescription>)
    ensures
        *final(window) == (Ui2Window {
            ui_description: match ui_description {
                Some(d) => d,
                None => old(window).ui_description,
            },
            ..*old(window)
        }),
{
    match ui_description {
        Some(d) => {
            window.ui_description = d;
        },
        None => {},
    }
}

/// Replaces the caption, geometry, decorations, options or HTML/CSS of the
/// window when the request names it. Returns whether it did.
pub fn update_window(window: &mut Ui2Window, request: UpdateWindowRequest) -> (r: bool)
    ensures
        r == (old(window).id == request.window_id),
        !r ==> *final(window) == *old(window),
        r ==> *final(window) == updated_window(*old(window), request),
{
    if window.id != request.window_id {
        return false;
    }
    let UpdateWindowRequest { window_id, caption, geometry, decorations, options, ui_description } =
        request;
    replace_caption(window, caption);
    replace_geometry(window, geometry);
    replace_decorations(window, decorations);
    replace_options(window, options);
    replace_description(window, ui_description);
    true
}

/// The first property with the given key, if any.
pub open spec fn first_property_at(props: Seq<(Seq<char>, Seq<char>)>, key: Seq<char>, i: int) -> bool {
    &&& 0 <= i < props.len()
    &&& props[i].0 == key
    &&& forall|j: int| 0 <= j < i ==> (#[trigger] props[j]).0 != key
}

pub open spec fn has_property(props: Seq<(Seq<char>, Seq<char>)>, key: Seq<char>) -> bool {
    exists|j: int| 0 <= j < props.len() && (#[trigger] props[j]).0 == key
}

/// Setting a value replaces the first property with that key or appends a
/// new one; clearing it removes every property with that key.
pub open spec fn changed_properties(
    props: Seq<(Seq<char>, Seq<char>)>,
    key: Seq<char>,
    value: Option<Seq<char>>,
) -> Seq<(Seq<char>, Seq<char>)> {
    match value {
        Some(v) => if has_property(props, key) {
            let i = choose|i: int| first_property_at(props, key, i);
            props.update(i, (key, v))
        } else {
            props.push((key, v))
        },
        None => props.filter(|p: (Seq<char>, Seq<char>)| p.0 != key),
    }
}

pub open spec fn option_view(v: Option<String>) -> Option<Seq<char>> {
    match v {
        Some(s) => Some(s@),
        None => None,
    }
}

fn set_property(props: &mut Vec<Property>, key: String, value: String)
    ensures
        model::properties_view(final(props)@) == changed_properties(
            model::properties_view(old(props)@),
            key@,
            Some(value@),
        ),
{
    let ghost pv = model::properties_view(props@);
    let mut i: usize = 0;
    while i < props.len()
        invariant
            i <= props.len(),
            pv == model::properties_view(props@),
            pv == model::properties_view(old(props)@),
            forall|j: int| 0 <= j < i ==> (#[trigger] pv[j]).0 != key@,
        decreases props.len() - i,
    {
        if props[i].key == key {
            proof {
                assert(pv[i as int] == model::property_view(props@[i as int]));
                assert(first_property_at(pv, key@, i as int));
                assert(has_property(pv, key@));
                let c = choose|c: int| first_property_at(pv, key@, c);
                assert(c == i) by {
                    if c < i {
                        assert(pv[c].0 != key@);
                    } else if c > i {
                        assert(pv[i as int].0 != key@);
                    }
                }
            }
            let ghost before = props@;
            let mut p = props.remove(i);
            p.value = value;
            props.insert(i, p);
            proof {
                assert(model::properties_view(props@) =~= pv.update(i as int, (key@, value@)));
                assert(changed_properties(pv, key@, Some(value@)) == pv.update(i as int, (key@, value@)));
            }
            return;
        }
        i += 1;
    }
    let ghost before = props@;
    props.push(Property { key, value });
    proof {
        assert(!has_property(pv, key@));
        assert(model::properties_view(props@) =~= pv.push((key@, value@)));
    }
}

fn remove_property(props: &mut Vec<Property>, key: &String)
    ensures
        model::properties_view(final(props)@) == changed_properties(
            model::properties_view(old(props)@),
            key@,
            None,
        ),
{
    let ghost pv = model::properties_view(props@);
    let mut kept: Vec<Property> = Vec::new();
    let mut rest: Vec<Property> = Vec::new();
    std::mem::swap(&mut rest, props);
    let ghost all = rest@;
    let mut i: usize = 0;
    while i < rest.len()
        invariant
            i <= rest.len(),
            rest@ == all,
            pv == model::properties_view(all),
            model::properties_view(kept@) == model::properties_view(all.take(i as int)).filter(
                |p: (Seq<char>, Seq<char>)| p.0 != key@,
            ),
        decreases rest.len() - i,
    {
        let ghost prev = kept@;
        let ghost pred = |p: (Seq<char>, Seq<char>)| p.0 != key@;
        proof {
            let x = model::properties_view(all.take(i as int));
            let y = model::properties_view(all.take(i + 1));
            assert(all.take(i + 1) =~= all.take(i as int).push(all[i as int]));
            assert(y =~= x.push(model::property_view(all[i as int])));
            assert(y.drop_last() =~= x);
            assert(y.last() == model::property_view(all[i as int]));
            reveal(Seq::filter);
            assert(y.filter(pred) == if pred(y.last()) {
                x.filter(pred).push(y.last())
            } else {
                x.filter(pred)
            });
        }
        if rest[i].key != *key {
            let p = rest[i].duplicate();
            kept.push(p);
            proof {
                assert(model::properties_view(kept@) =~= model::properties_view(prev).push(
                    model::property_view(p),
                ));
            }
        }
        i += 1;
    }
    proof {
        assert(all.take(all.len() as int) =~= all);
    }
    *props = kept;
}

/// Sets, adds or removes one property of a control. Returns whether the
/// window and the control were found.
pub fn change_control_property(window: &mut Ui2Window, request: ControlPropertyChangeRequest) -> (r:
    bool)
    ensures
        r == (old(window).id == request.window_id && has_control(
            old(window).controls@,
            request.control_id,
        )),
        !r ==> *final(window) == *old(window),
        r ==> exists|i: int|
            {
                &&& first_control_at(old(window).controls@, request.control_id, i)
                &&& only_control_changed(*final(window), *old(window), i)
                &&& ({
                    let n = final(window).controls@[i];
                    let c = old(window).controls@[i];
                    &&& n.id == c.id
                    &&& n.kind == c.kind
                    &&& n.name == c.name
                    &&& n.caption == c.caption
                    &&& n.geometry == c.geometry
                    &&& n.events == c.events
                    &&& model::properties_view(n.properties@) == changed_properties(
                        model::properties_view(c.properties@),
                        request.key@,
                        option_view(request.value),
                    )
                })
            },
{
    if window.id != request.window_id {
        return false;
    }
    let found = find_control(&window.controls, request.control_id);
    match found {
        None => false,
        Some(i) => {
            let ghost before = window.controls@;
            let mut control = window.controls.remove(i);
            let ghost old_control = control;
            let ghost key_view = request.key@;
            let ghost value_view = option_view(request.value);
            match request.value {
                Some(value) => set_property(&mut control.properties, request.key, value),
                None => remove_property(&mut control.properties, &request.key),
            }
            proof {
                assert(model::properties_view(control.properties@) == changed_properties(
                    model::properties_view(old_control.properties@),
                    key_view,
                    value_view,
                ));
            }
            window.controls.insert(i, control);
            proof {
                assert forall|k: int|
                    0 <= k < before.len() && k != i implies window.controls@[k] == before[k] by {
                    if k < i {
                    } else {
                    }
                }
                assert(first_control_at(old(window).controls@, request.control_id, i as int));
                assert(only_control_changed(*window, *old(window), i as int));
            }
            true
        },
    }
}

/// Selects a control (or clears the selection) when the request names the
/// active window.
pub fn select_control(state: &mut DesignerState, request: SelectControlRequest) -> (r: bool)
    ensures
        r == (old(state).active_window == request.window_id),
        r ==> final(state).selected_control == request.control_id,
        final(state).active_window == old(state).active_window,
        final(state).grid == old(state).grid,
        final(state).snap_to_grid == old(state).snap_to_grid,
        final(state).palette == old(state).palette,
        !r ==> final(state).selected_control == old(state).selected_control,
{
    if state.active_window != request.window_id {
        return false;
    }
    state.selected_control = request.control_id;
    true
}

/// The selection after an update: cleared when asked, else the requested
/// control, else cleared when the active window changes, else unchanged.
pub open spec fn updated_selection(
    old_selection: Option<u128>,
    request: UpdateDesignerStateRequest,
) -> Option<u128> {
    if request.clear_selection {
        None
    } else if request.selected_control is Some {
        request.selected_control
    } else if request.active_window is Some {
        None
    } else {
        old_selection
    }
}

pub fn update_designer_state(state: &mut DesignerState, request: UpdateDesignerStateRequest) -> (r:
    bool)
    ensures
        r,
        final(state).active_window == (match request.active_window {
            Some(w) => w,
            None => old(state).active_window,
        }),
        final(state).selected_control == updated_selection(old(state).selected_control, request),
        final(state).grid == (match request.grid {
            Some(g) => if g < 1 {
                1
            } else {
                g
            },
            None => old(state).grid,
        }),
        final(state).snap_to_grid == (match request.snap_to_grid {
            Some(b) => b,
            None => old(state).snap_to_grid,
        }),
        final(state).palette == old(state).palette,
{
    match request.active_window {
        Some(active_window) => {
            state.active_window = active_window;
            if request.selected_control.is_none() && !request.clear_selection {
                state.selected_control = None;
            }
        },
        None => {},
    }
    if request.clear_selection {
        state.selected_control = None;
    } else {
        match request.selected_control {
            Some(selected) => {
                state.selected_control = Some(selected);
            },
            None => {},
        }
    }
    match request.grid {
        Some(grid) => {
            state.grid = if grid < 1 {
                1
            } else {
                grid
            };
        },
        None => {},
    }
    match request.snap_to_grid {
        Some(snap_to_grid) => {
            state.snap_to_grid = snap_to_grid;
        },
        None => {},
    }
    true
}


// ---------------------------------------------------------------------------
// Alignment of several controls
// ---------------------------------------------------------------------------

pub open spec fn align_anchor_id(request: AlignControlsRequest) -> u128 {
    match request.anchor_control_id {
        Some(a) => a,
        None => request.control_ids@[0],
    }
}

/// A control is aligned when the request lists it and it is not the anchor.
pub open spec fn is_aligned_target(c: Ui2Control, ids: Seq<u128>, anchor_id: u128) -> bool {
    c.id != anchor_id && ids.contains(c.id)
}

pub open spec fn count_targets(s: Seq<Ui2Control>, ids: Seq<u128>, anchor_id: u128) -> nat
    decreases s.len(),
{
    if s.len() == 0 {
        0
    } else {
        count_targets(s.drop_last(), ids, anchor_id) + if is_aligned_target(
            s.last(),
            ids,
            anchor_id,
        ) {
            1nat
        } else {
            0nat
        }
    }
}

/// `align_rect` computes without overflow for every control it is applied to.
pub open spec fn align_controls_fits(window: Ui2Window, request: AlignControlsRequest) -> bool {
    request.control_ids@.len() > 0 ==> forall|a: int, k: int|
        #[trigger] first_control_at(window.controls@, align_anchor_id(request), a) && 0 <= k
            < window.controls@.len() && is_aligned_target(
            #[trigger] window.controls@[k],
            request.control_ids@,
            align_anchor_id(request),
        ) ==> align_fits(
            window.controls@[k].geometry,
            window.controls@[a].geometry,
            request.alignment,
        )
}

fn id_listed(ids: &Vec<u128>, id: u128) -> (b: bool)
    ensures
        b == ids@.contains(id),
{
    let mut i: usize = 0;
    while i < ids.len()
        invariant
            i <= ids.len(),
            forall|j: int| 0 <= j < i ==> ids@[j] != id,
        decreases ids.len() - i,
    {
        if ids[i] == id {
            proof {
                assert(ids@[i as int] == id);
            }
            return true;
        }
        i += 1;
    }
    false
}

/// Lines up the listed controls with the anchor (the given one, else the
/// first listed) and returns how many moved; the anchor itself stays.
pub fn align_controls(window: &mut Ui2Window, request: AlignControlsRequest) -> (r: usize)
    requires
        align_controls_fits(*old(window), request),
    ensures
        (old(window).id != request.window_id || request.control_ids@.len() == 0 || !has_control(
            old(window).controls@,
            align_anchor_id(request),
        )) ==> r == 0 && *final(window) == *old(window),
        (old(window).id == request.window_id && request.control_ids@.len() > 0 && has_control(
            old(window).controls@,
            align_anchor_id(request),
        )) ==> exists|a: int|
            {
                &&& first_control_at(old(window).controls@, align_anchor_id(request), a)
                &&& same_but_controls(*final(window), *old(window))
                &&& final(window).controls@.len() == old(window).controls@.len()
                &&& r == count_targets(
                    old(window).controls@,
                    request.control_ids@,
                    align_anchor_id(request),
                )
                &&& forall|k: int|
                    0 <= k < old(window).controls@.len() ==> #[trigger] final(window).controls@[k]
                        == if is_aligned_target(
                        old(window).controls@[k],
                        request.control_ids@,
                        align_anchor_id(request),
                    ) {
                        Ui2Control {
                            geometry: spec_align_rect(
                                old(window).controls@[k].geometry,
                                old(window).controls@[a].geometry,
                                request.alignment,
                            ),
                            ..old(window).controls@[k]
                        }
                    } else {
                        old(window).controls@[k]
                    }
            },
{
    if window.id != request.window_id || request.control_ids.len() == 0 {
        return 0;
    }
    let anchor_id = match request.anchor_control_id {
        Some(a) => a,
        None => request.control_ids[0],
    };
    let found = find_control(&window.controls, anchor_id);
    let a = match found {
        None => {
            return 0;
        },
        Some(a) => a,
    };
    let anchor = window.controls[a].geometry;
    let ghost start = window.controls@;
    let ghost ids = request.control_ids@;
    let mut changed: usize = 0;
    let mut k: usize = 0;
    while k < window.controls.len()
        invariant
            k <= window.controls@.len(),
            window.controls@.len() == start.len(),
            ids == request.control_ids@,
            anchor_id == align_anchor_id(request),
            first_control_at(start, anchor_id, a as int),
            anchor == start[a as int].geometry,
            align_controls_fits(*old(window), request),
            start == old(window).controls@,
            same_but_controls(*window, *old(window)),
            changed == count_targets(start.take(k as int), ids, anchor_id),
            changed <= k,
            forall|j: int| k <= j < start.len() ==> window.controls@[j] == start[j],
            forall|j: int|
                0 <= j < k ==> #[trigger] window.controls@[j] == if is_aligned_target(
                    start[j],
                    ids,
                    anchor_id,
                ) {
                    Ui2Control {
                        geometry: spec_align_rect(start[j].geometry, anchor, request.alignment),
                        ..start[j]
                    }
                } else {
                    start[j]
                },
        decreases start.len() - k,
    {
        proof {
            assert(start.take(k + 1).drop_last() =~= start.take(k as int));
            assert(start.take(k + 1).last() == start[k as int]);
        }
        let id = window.controls[k].id;
        if id != anchor_id && id_listed(&request.control_ids, id) {
            let ghost before = window.controls@;
            let mut control = window.controls.remove(k);
            proof {
                assert(is_aligned_target(start[k as int], ids, anchor_id));
            }
            control.geometry = align_rect(control.geometry, anchor, request.alignment);
            window.controls.insert(k, control);
            proof {
                assert forall|j: int|
                    0 <= j < before.len() && j != k implies window.controls@[j] == before[j] by {
                    if j < k {
                    } else {
                    }
                }
            }
            changed += 1;
        }
        k += 1;
    }
    proof {
        assert(start.take(start.len() as int) =~= start);
        assert(first_control_at(old(window).controls@, align_anchor_id(request), a as int));
    }
    changed
}


// ---------------------------------------------------------------------------
// Inspector rows
// ---------------------------------------------------------------------------

pub struct InspectorRow {
    pub key: String,
    pub value: String,
    pub editable: bool,
}

pub open spec fn row_view(r: InspectorRow) -> (Seq<char>, Seq<char>, bool) {
    (r.key@, r.value@, r.editable)
}

pub open spec fn rows_view(v: Seq<InspectorRow>) -> Seq<(Seq<char>, Seq<char>, bool)> {
    v.map_values(|r: InspectorRow| row_view(r))
}

pub fn row(key: &str, value: &str, editable: bool) -> (r: InspectorRow)
    ensures
        row_view(r) == (key@, value@, editable),
{
    InspectorRow { key: text::owned(key), value: text::owned(value), editable }
}

fn push_row(rows: &mut Vec<InspectorRow>, r: InspectorRow)
    ensures
        rows_view(final(rows)@) == rows_view(old(rows)@).push(row_view(r)),
{
    let ghost before = rows@;
    rows.push(r);
    proof {
        assert(rows_view(rows@) =~= rows_view(before).push(row_view(r)));
    }
}

pub open spec fn geometry_rows(g: Rect) -> Seq<(Seq<char>, Seq<char>, bool)> {
    seq![
        ("x"@, text::int_decimal(g.x as int), true),
        ("y"@, text::int_decimal(g.y as int), true),
        ("width"@, text::nat_decimal(g.w as nat), true),
        ("height"@, text::nat_decimal(g.h as nat), true),
    ]
}

/// The simple inspector rows of a window.
pub open spec fn window_rows(w: Ui2Window) -> Seq<(Seq<char>, Seq<char>, bool)> {
    seq![("name"@, w.name@, false), ("caption"@, w.caption@, true)] + geometry_rows(w.geometry)
        + seq![("decorations"@, text::join_seqs(model::decoration_flags(w.decorations), ", "@), true)]
}

fn push_geometry_rows(rows: &mut Vec<InspectorRow>, g: Rect)
    ensures
        rows_view(final(rows)@) == rows_view(old(rows)@) + geometry_rows(g),
{
    let ghost before = rows_view(rows@);
    let x = text::i64_to_string(g.x as i64);
    push_row(rows, row("x", x.as_str(), true));
    let y = text::i64_to_string(g.y as i64);
    push_row(rows, row("y", y.as_str(), true));
    let w = text::u64_to_string(g.w as u64);
    push_row(rows, row("width", w.as_str(), true));
    let h = text::u64_to_string(g.h as u64);
    push_row(rows, row("height", h.as_str(), true));
    proof {
        assert(rows_view(rows@) =~= before + geometry_rows(g));
    }
}

pub fn inspector_for_window(window: &Ui2Window) -> (rows: Vec<InspectorRow>)
    ensures
        rows_view(rows@) == window_rows(*window),
{
    let mut rows: Vec<InspectorRow> = Vec::new();
    push_row(&mut rows, row("name", window.name.as_str(), false));
    push_row(&mut rows, row("caption", window.caption.as_str(), true));
    push_geometry_rows(&mut rows, window.geometry);
    let flags = model::joined_flags(&window.decorations);
    push_row(&mut rows, row("decorations", flags.as_str(), true));
    proof {
        assert(rows_view(rows@) =~= window_rows(*window));
    }
    rows
}

/// The simple inspector rows of a control: identity, geometry, then one
/// editable row per property.
pub open spec fn control_rows(c: Ui2Control) -> Seq<(Seq<char>, Seq<char>, bool)> {
    seq![
        ("name"@, c.name@, true),
        ("kind"@, kind_debug_name(c.kind), false),
        ("caption"@, c.caption@, true),
    ] + geometry_rows(c.geometry) + property_rows(model::properties_view(c.properties@))
}

pub open spec fn property_rows(props: Seq<(Seq<char>, Seq<char>)>) -> Seq<(Seq<char>, Seq<char>, bool)> {
    props.map_values(|p: (Seq<char>, Seq<char>)| (p.0, p.1, true))
}

pub fn inspector_for_control(control: &Ui2Control) -> (rows: Vec<InspectorRow>)
    ensures
        rows_view(rows@) == control_rows(*control),
{
    let mut rows: Vec<InspectorRow> = Vec::new();
    push_row(&mut rows, row("name", control.name.as_str(), true));
    push_row(&mut rows, row("kind", kind_debug_str(control.kind), false));
    push_row(&mut rows, row("caption", control.caption.as_str(), true));
    push_geometry_rows(&mut rows, control.geometry);
    let ghost head = rows_view(rows@);
    let ghost props = model::properties_view(control.properties@);
    let mut i: usize = 0;
    while i < control.properties.len()
        invariant
            i <= control.properties@.len(),
            props == model::properties_view(control.properties@),
            rows_view(rows@) == head + property_rows(props.take(i as int)),
        decreases control.properties@.len() - i,
    {
        let p = &control.properties[i];
        let ghost prev = rows_view(rows@);
        push_row(&mut rows, row(p.key.as_str(), p.value.as_str(), true));
        proof {
            assert(props[i as int] == model::property_view(control.properties@[i as int]));
            assert(rows_view(rows@) == prev.push((p.key@, p.value@, true)));
            assert(property_rows(props.take(i + 1)) =~= property_rows(props.take(i as int)).push(
                (p.key@, p.value@, true),
            ));
            assert(rows_view(rows@) =~= head + property_rows(props.take(i + 1)));
        }
        i += 1;
    }
    proof {
        assert(props.take(props.len() as int) =~= props);
        assert(rows_view(rows@) =~= control_rows(*control));
    }
    rows
}

// ---------------------------------------------------------------------------
// Object inspector
// ---------------------------------------------------------------------------

pub struct ObjectInspectorData {
    pub window_id: u128,
    pub target: ObjectInspectorTarget,
    pub window_options: Option<Ui2WindowInspectorOptions>,
    pub ui_description: Option<Ui2HtmlCssDescription>,
    pub sections: Vec<ObjectInspectorSection>,
}

#[derive(Debug, Clone, PartialEq, Eq)]
pub struct Ui2WindowInspectorOptions {
    pub caption: String,
    pub min_size: Ui2Size,
    pub max_size: Option<Ui2Size>,
    pub resize_mode: Ui2ResizeMode,
    pub scrollbars: Ui2ScrollbarMode,
    pub vertical_scrollbar_side: Ui2VerticalScrollbarSide,
    pub horizontal_scrollbar_side: Ui2HorizontalScrollbarSide,
    pub hit_test_visible: bool,
    pub preserve_scale: bool,
    pub decoration_flags: Vec<String>,
}

pub enum ObjectInspectorTarget {
    Window { id: u128, name: String },
    Control { id: u128, name: String, kind: String },
}

pub struct ObjectInspectorSection {
    pub id: String,
    pub label: String,
    pub fields: Vec<ObjectInspectorField>,
}

pub struct ObjectInspectorField {
    pub key: String,
    pub label: String,
    pub value: String,
    pub editor: ObjectInspectorEditor,
    pub read_only: bool,
}

#[derive(Debug)]
pub enum ObjectInspectorEditor {
    Text,
    TextArea { language: Option<String> },
    Number { min: Option<i32>, step: i32 },
    Bool,
    Select { options: Vec<String> },
}

pub enum EditorView {
    Text,
    TextArea(Option<Seq<char>>),
    Number(Option<i32>, i32),
    Bool,
    Select(Seq<Seq<char>>),
}

pub open spec fn editor_view(e: ObjectInspectorEditor) -> EditorView {
    match e {
        ObjectInspectorEditor::Text => EditorView::Text,
        ObjectInspectorEditor::TextArea { language } => EditorView::TextArea(
            match language {
                Some(l) => Some(l@),
                None => None,
            },
        ),
        ObjectInspectorEditor::Number { min, step } => EditorView::Number(min, step),
        ObjectInspectorEditor::Bool => EditorView::Bool,
        ObjectInspectorEditor::Select { options } => EditorView::Select(
            text::strings_view(options@),
        ),
    }
}

pub struct FieldView {
    pub key: Seq<char>,
    pub label: Seq<char>,
    pub value: Seq<char>,
    pub editor: EditorView,
    pub read_only: bool,
}

pub open spec fn fv(
    key: Seq<char>,
    label: Seq<char>,
    value: Seq<char>,
    editor: EditorView,
    read_only: bool,
) -> FieldView {
    FieldView { key, label, value, editor, read_only }
}

pub open spec fn field_view(f: ObjectInspectorField) -> FieldView {
    fv(f.key@, f.label@, f.value@, editor_view(f.editor), f.read_only)
}

pub open spec fn fields_view(v: Seq<ObjectInspectorField>) -> Seq<FieldView> {
    v.map_values(|f: ObjectInspectorField| field_view(f))
}

pub open spec fn section_view(s: ObjectInspectorSection) -> (Seq<char>, Seq<char>, Seq<FieldView>) {
    (s.id@, s.label@, fields_view(s.fields@))
}

pub open spec fn sections_view(v: Seq<ObjectInspectorSection>) -> Seq<
    (Seq<char>, Seq<char>, Seq<FieldView>),
> {
    v.map_values(|s: ObjectInspectorSection| section_view(s))
}

pub fn text_field(key: &str, label: &str, value: &str, read_only: bool) -> (f: ObjectInspectorField)
    ensures
        field_view(f) == fv(key@, label@, value@, EditorView::Text, read_only),
{
    ObjectInspectorField {
        key: text::owned(key),
        label: text::owned(label),
        value: text::owned(value),
        editor: ObjectInspectorEditor::Text,
        read_only,
    }
}

pub fn text_area_field(key: &str, label: &str, value: &str, language: &str) -> (f:
    ObjectInspectorField)
    ensures
        field_view(f) == fv(key@, label@, value@, EditorView::TextArea(Some(language@)), false),
{
    ObjectInspectorField {
        key: text::owned(key),
        label: text::owned(label),
        value: text::owned(value),
        editor: ObjectInspectorEditor::TextArea { language: Some(text::owned(language)) },
        read_only: false,
    }
}

pub fn number_field(key: &str, label: &str, value: i32, min: Option<i32>) -> (f:
    ObjectInspectorField)
    ensures
        field_view(f) == fv(
            key@,
            label@,
            text::int_decimal(value as int),
            EditorView::Number(min, 1),
            false,
        ),
{
    ObjectInspectorField {
        key: text::owned(key),
        label: text::owned(label),
        value: text::i64_to_string(value as i64),
        editor: ObjectInspectorEditor::Number { min, step: 1 },
        read_only: false,
    }
}

pub open spec fn optional_number_text(value: Option<u32>) -> Seq<char> {
    match value {
        Some(v) => text::nat_decimal(v as nat),
        None => Seq::empty(),
    }
}

pub fn optional_number_field(key: &str, label: &str, value: Option<u32>, min: Option<i32>) -> (f:
    ObjectInspectorField)
    ensures
        field_view(f) == fv(
            key@,
            label@,
            optional_number_text(value),
            EditorView::Number(min, 1),
            false,
        ),
{
    let text_value = match value {
        Some(v) => text::u64_to_string(v as u64),
        None => String::new(),
    };
    ObjectInspectorField {
        key: text::owned(key),
        label: text::owned(label),
        value: text_value,
        editor: ObjectInspectorEditor::Number { min, step: 1 },
        read_only: false,
    }
}

pub fn bool_field(key: &str, label: &str, value: bool) -> (f: ObjectInspectorField)
    ensures
        field_view(f) == fv(key@, label@, text::bool_text(value), EditorView::Bool, false),
{
    ObjectInspectorField {
        key: text::owned(key),
        label: text::owned(label),
        value: text::bool_to_string(value),
        editor: ObjectInspectorEditor::Bool,
        read_only: false,
    }
}

pub fn select_field(key: &str, label: &str, value: &str, options: Vec<String>) -> (f:
    ObjectInspectorField)
    ensures
        field_view(f) == fv(
            key@,
            label@,
            value@,
            EditorView::Select(text::strings_view(options@)),
            false,
        ),
{
    ObjectInspectorField {
        key: text::owned(key),
        label: text::owned(label),
        value: text::owned(value),
        editor: ObjectInspectorEditor::Select { options },
        read_only: false,
    }
}

fn push_field(fields: &mut Vec<ObjectInspectorField>, f: ObjectInspectorField)
    ensures
        fields_view(final(fields)@) == fields_view(old(fields)@).push(field_view(f)),
{
    let ghost before = fields@;
    fields.push(f);
    proof {
        assert(fields_view(fields@) =~= fields_view(before).push(field_view(f)));
    }
}

/// The geometry fields: x and y, and width and height of at least 1.
pub open spec fn rect_field_views(r: Rect) -> Seq<FieldView> {
    seq![
        fv("x"@, "X"@, text::int_decimal(r.x as int), EditorView::Number(None, 1), false),
        fv("y"@, "Y"@, text::int_decimal(r.y as int), EditorView::Number(None, 1), false),
        fv(
            "width"@,
            "Width"@,
            text::int_decimal(r.w as i32 as int),
            EditorView::Number(Some(1), 1),
            false,
        ),
        fv(
            "height"@,
            "Height"@,
            text::int_decimal(r.h as i32 as int),
            EditorView::Number(Some(1), 1),
            false,
        ),
    ]
}

pub fn rect_fields(rect: Rect) -> (v: Vec<ObjectInspectorField>)
    ensures
        fields_view(v@) == rect_field_views(rect),
{
    let mut v: Vec<ObjectInspectorField> = Vec::new();
    push_field(&mut v, number_field("x", "X", rect.x, None));
    push_field(&mut v, number_field("y", "Y", rect.y, None));
    push_field(&mut v, number_field("width", "Width", rect.w as i32, Some(1)));
    push_field(&mut v, number_field("height", "Height", rect.h as i32, Some(1)));
    proof {
        assert(fields_view(v@) =~= rect_field_views(rect));
    }
    v
}

pub open spec fn max_width(o: Ui2WindowOptions) -> Option<u32> {
    match o.max_size {
        Some(s) => Some(s.width),
        None => None,
    }
}

pub open spec fn max_height(o: Ui2WindowOptions) -> Option<u32> {
    match o.max_size {
        Some(s) => Some(s.height),
        None => None,
    }
}

/// The window-option fields of the inspector.
pub open spec fn window_option_field_views(w: Ui2Window) -> Seq<FieldView> {
    let o = w.options;
    seq![
        fv(
            "min-width"@,
            "Min width"@,
            text::int_decimal(o.min_size.width as i32 as int),
            EditorView::Number(Some(1), 1),
            false,
        ),
        fv(
            "min-height"@,
            "Min height"@,
            text::int_decimal(o.min_size.height as i32 as int),
            EditorView::Number(Some(1), 1),
            false,
        ),
        fv(
            "max-width"@,
            "Max width"@,
            optional_number_text(max_width(o)),
            EditorView::Number(Some(1), 1),
            false,
        ),
        fv(
            "max-height"@,
            "Max height"@,
            optional_number_text(max_height(o)),
            EditorView::Number(Some(1), 1),
            false,
        ),
        fv(
            "resize-mode"@,
            "Resize mode"@,
            crate::ui2_options::resize_mode_text(o.resize_mode),
            EditorView::Select(seq!["none"@, "width"@, "height"@, "both"@]),
            false,
        ),
        fv(
            "scrollbars"@,
            "Scrollbars"@,
            crate::ui2_options::scrollbar_mode_text(o.scrollbars),
            EditorView::Select(seq!["none"@, "horizontal"@, "vertical"@, "both"@, "auto"@]),
            false,
        ),
        fv(
            "vertical-scrollbar-side"@,
            "Vertical side"@,
            match o.vertical_scrollbar_side {
                Ui2VerticalScrollbarSide::Left => "left"@,
                Ui2VerticalScrollbarSide::Right => "right"@,
            },
            EditorView::Select(seq!["left"@, "right"@]),
            false,
        ),
        fv(
            "horizontal-scrollbar-side"@,
            "Horizontal side"@,
            match o.horizontal_scrollbar_side {
                Ui2HorizontalScrollbarSide::Top => "top"@,
                Ui2HorizontalScrollbarSide::Bottom => "bottom"@,
            },
            EditorView::Select(seq!["top"@, "bottom"@]),
            false,
        ),
        fv(
            "decoration-mode"@,
            "Decoration mode"@,
            model::decoration_mode_text(w.decorations.mode),
            EditorView::Select(seq!["system"@, "custom"@]),
            false,
        ),
        fv(
            "hit-test-visible"@,
            "Hit-test visible"@,
            text::bool_text(o.hit_test_visible),
            EditorView::Bool,
            false,
        ),
        fv(
            "preserve-scale"@,
            "Preserve scale"@,
            text::bool_text(o.preserve_scale),
            EditorView::Bool,
            false,
        ),
    ]
}

pub fn window_option_fields(window: &Ui2Window) -> (v: Vec<ObjectInspectorField>)
    ensures
        fields_view(v@) == window_option_field_views(*window),
{
    let options = &window.options;
    let mut v: Vec<ObjectInspectorField> = Vec::new();
    push_field(&mut v, number_field("min-width", "Min width", options.min_size.width as i32, Some(1)));
    push_field(
        &mut v,
        number_field("min-height", "Min height", options.min_size.height as i32, Some(1)),
    );
    let (mw, mh) = match options.max_size {
        Some(size) => (Some(size.width), Some(size.height)),
        None => (None, None),
    };
    push_field(&mut v, optional_number_field("max-width", "Max width", mw, Some(1)));
    push_field(&mut v, optional_number_field("max-height", "Max height", mh, Some(1)));
    push_field(
        &mut v,
        select_field(
            "resize-mode",
            "Resize mode",
            options.resize_mode.as_str(),
            Ui2ResizeMode::options(),
        ),
    );
    push_field(
        &mut v,
        select_field(
            "scrollbars",
            "Scrollbars",
            options.scrollbars.as_str(),
            Ui2ScrollbarMode::options(),
        ),
    );
    push_field(
        &mut v,
        select_field(
            "vertical-scrollbar-side",
            "Vertical side",
            options.vertical_scrollbar_side.as_str(),
            Ui2VerticalScrollbarSide::options(),
        ),
    );
    push_field(
        &mut v,
        select_field(
            "horizontal-scrollbar-side",
            "Horizontal side",
            options.horizontal_scrollbar_side.as_str(),
            Ui2HorizontalScrollbarSide::options(),
        ),
    );
    push_field(
        &mut v,
        select_field(
            "decoration-mode",
            "Decoration mode",
            window.decorations.mode.as_str(),
            model::WindowDecorationMode::options(),
        ),
    );
    push_field(&mut v, bool_field("hit-test-visible", "Hit-test visible", options.hit_test_visible));
    push_field(&mut v, bool_field("preserve-scale", "Preserve scale", options.preserve_scale));
    proof {
        assert(fields_view(v@) =~= window_option_field_views(*window));
    }
    v
}


// ---------------------------------------------------------------------------
// Labels and editors
// ---------------------------------------------------------------------------

pub struct WordsState {
    pub words: Seq<Seq<char>>,
    pub cur: Seq<char>,
}

pub open spec fn words_step(st: WordsState, c: char) -> WordsState {
    if c == '-' {
        if st.cur.len() > 0 {
            WordsState { words: st.words.push(st.cur), cur: Seq::empty() }
        } else {
            st
        }
    } else {
        WordsState { cur: st.cur.push(c), ..st }
    }
}

pub open spec fn words_run(s: Seq<char>) -> WordsState
    decreases s.len(),
{
    if s.len() == 0 {
        WordsState { words: Seq::empty(), cur: Seq::empty() }
    } else {
        words_step(words_run(s.drop_last()), s.last())
    }
}

/// The non-empty pieces of `s` between dashes.
pub open spec fn dash_words(s: Seq<char>) -> Seq<Seq<char>> {
    let st = words_run(s);
    if st.cur.len() > 0 {
        st.words.push(st.cur)
    } else {
        st.words
    }
}

/// A word with its first character in uppercase.
pub open spec fn capitalized(w: Seq<char>) -> Seq<char> {
    if w.len() == 0 {
        w
    } else {
        text::char_uppercase(w[0]) + w.drop_first()
    }
}

/// `background-color` becomes `Background Color`.
pub open spec fn spec_property_label(key: Seq<char>) -> Seq<char> {
    text::join_seqs(dash_words(key).map_values(|w: Seq<char>| capitalized(w)), " "@)
}

fn capitalize(w: &Vec<char>) -> (s: String)
    ensures
        s@ == capitalized(w@),
{
    if w.len() == 0 {
        return String::new();
    }
    let first = text::uppercase_of(w[0]);
    let mut s = text::string_of(&first);
    let mut i: usize = 1;
    while i < w.len()
        invariant
            1 <= i <= w.len(),
            s@ == text::char_uppercase(w@[0]) + w@.subrange(1, i as int),
        decreases w.len() - i,
    {
        text::push_char(&mut s, w[i]);
        i += 1;
        proof {
            assert(s@ =~= text::char_uppercase(w@[0]) + w@.subrange(1, i as int));
        }
    }
    proof {
        assert(w@.subrange(1, w.len() as int) =~= w@.drop_first());
    }
    s
}

pub fn property_label(key: &str) -> (r: String)
    ensures
        r@ == spec_property_label(key@),
{
    let chars = text::chars_of(key);
    let mut words: Vec<Vec<char>> = Vec::new();
    let mut cur: Vec<char> = Vec::new();
    let mut i: usize = 0;
    while i < chars.len()
        invariant
            i <= chars.len(),
            chars@ == key@,
            words_run(chars@.take(i as int)).words == words@.map_values(|w: Vec<char>| w@),
            words_run(chars@.take(i as int)).cur == cur@,
        decreases chars.len() - i,
    {
        proof {
            assert(chars@.take(i + 1).drop_last() =~= chars@.take(i as int));
        }
        if chars[i] == '-' {
            if cur.len() > 0 {
                let ghost before = words@;
                let w = cur;
                cur = Vec::new();
                words.push(w);
                proof {
                    assert(words@.map_values(|w: Vec<char>| w@) =~= before.map_values(
                        |w: Vec<char>| w@,
                    ).push(w@));
                }
            }
        } else {
            cur.push(chars[i]);
        }
        i += 1;
    }
    proof {
        assert(chars@.take(chars.len() as int) =~= chars@);
    }
    if cur.len() > 0 {
        let ghost before = words@;
        let w = cur;
        words.push(w);
        proof {
            assert(words@.map_values(|w: Vec<char>| w@) =~= before.map_values(|w: Vec<char>| w@).push(
                w@,
            ));
        }
    }
    let ghost parts = dash_words(key@).map_values(|w: Seq<char>| capitalized(w));
    proof {
        assert(dash_words(key@) =~= words@.map_values(|w: Vec<char>| w@));
    }
    let mut out = String::new();
    let mut k: usize = 0;
    while k < words.len()
        invariant
            k <= words.len(),
            parts.len() == words@.len(),
            forall|j: int| 0 <= j < words@.len() ==> #[trigger] parts[j] == capitalized(words@[j]@),
            out@ == text::join_seqs(parts.take(k as int), " "@),
        decreases words.len() - k,
    {
        proof {
            assert(parts.take(k + 1).drop_last() =~= parts.take(k as int));
        }
        if k > 0 {
            text::push_str(&mut out, " ");
        }
        let c = capitalize(&words[k]);
        text::push_str(&mut out, c.as_str());
        k += 1;
    }
    proof {
        assert(parts.take(words.len() as int) =~= parts);
    }
    out
}

/// Booleans get a checkbox, index and length values and padding get a number
/// box, anything else a text box.
pub open spec fn spec_property_editor(key: Seq<char>, value: Seq<char>) -> EditorView {
    if value == "true"@ || value == "false"@ {
        EditorView::Bool
    } else if text::has_suffix(key, "index"@) || text::has_suffix(key, "length"@) || key
        == "padding"@ {
        EditorView::Number(None, 1)
    } else {
        EditorView::Text
    }
}

pub fn property_editor(key: &str, value: &str) -> (e: ObjectInspectorEditor)
    ensures
        editor_view(e) == spec_property_editor(key@, value@),
{
    if text::str_eq(value, "true") || text::str_eq(value, "false") {
        return ObjectInspectorEditor::Bool;
    }
    let k = text::chars_of(key);
    let index = text::chars_of("index");
    let length = text::chars_of("length");
    if text::ends_with(&k, &index) || text::ends_with(&k, &length) || text::str_eq(key, "padding") {
        ObjectInspectorEditor::Number { min: None, step: 1 }
    } else {
        ObjectInspectorEditor::Text
    }
}

pub open spec fn kind_key(kind: ControlKind) -> Seq<char> {
    match kind {
        ControlKind::Button => "button"@,
        ControlKind::Label => "label"@,
        ControlKind::TextBox => "text-box"@,
        ControlKind::CheckBox => "check-box"@,
        ControlKind::Panel => "panel"@,
        ControlKind::ListBox => "list-box"@,
        ControlKind::Canvas => "canvas"@,
        ControlKind::Menu => "menu"@,
        ControlKind::Toolbar => "toolbar"@,
    }
}

/// The serialized name of a control kind.
pub fn control_kind_key(kind: ControlKind) -> (s: &'static str)
    ensures
        s@ == kind_key(kind),
{
    match kind {
        ControlKind::Button => "button",
        ControlKind::Label => "label",
        ControlKind::TextBox => "text-box",
        ControlKind::CheckBox => "check-box",
        ControlKind::Panel => "panel",
        ControlKind::ListBox => "list-box",
        ControlKind::Canvas => "canvas",
        ControlKind::Menu => "menu",
        ControlKind::Toolbar => "toolbar",
    }
}

pub open spec fn kind_keys() -> Seq<Seq<char>> {
    seq![
        "button"@,
        "label"@,
        "text-box"@,
        "check-box"@,
        "panel"@,
        "list-box"@,
        "canvas"@,
        "menu"@,
        "toolbar"@,
    ]
}

pub fn control_kind_options() -> (v: Vec<String>)
    ensures
        text::strings_view(v@) == kind_keys(),
{
    let v = vec![
        text::owned("button"),
        text::owned("label"),
        text::owned("text-box"),
        text::owned("check-box"),
        text::owned("panel"),
        text::owned("list-box"),
        text::owned("canvas"),
        text::owned("menu"),
        text::owned("toolbar"),
    ];
    proof {
        assert(text::strings_view(v@) =~= kind_keys());
    }
    v
}

pub open spec fn property_field_view(p: (Seq<char>, Seq<char>)) -> FieldView {
    fv(p.0, spec_property_label(p.0), p.1, spec_property_editor(p.0, p.1), false)
}

/// One field per property, and an empty glyph field for a button without one.
pub open spec fn control_property_field_views(c: Ui2Control) -> Seq<FieldView> {
    let props = model::properties_view(c.properties@);
    let fields = props.map_values(|p: (Seq<char>, Seq<char>)| property_field_view(p));
    if c.kind == ControlKind::Button && !exists|j: int|
        0 <= j < props.len() && (#[trigger] props[j]).0 == "glyph"@ {
        fields.push(fv("glyph"@, "Glyph"@, Seq::empty(), EditorView::Text, false))
    } else {
        fields
    }
}

pub fn control_property_fields(control: &Ui2Control) -> (v: Vec<ObjectInspectorField>)
    ensures
        fields_view(v@) == control_property_field_views(*control),
{
    let ghost props = model::properties_view(control.properties@);
    let mut v: Vec<ObjectInspectorField> = Vec::new();
    let mut has_glyph = false;
    let mut i: usize = 0;
    while i < control.properties.len()
        invariant
            i <= control.properties@.len(),
            props == model::properties_view(control.properties@),
            fields_view(v@) == props.take(i as int).map_values(
                |p: (Seq<char>, Seq<char>)| property_field_view(p),
            ),
            has_glyph == exists|j: int| 0 <= j < i && (#[trigger] props[j]).0 == "glyph"@,
        decreases control.properties@.len() - i,
    {
        let p = &control.properties[i];
        let label = property_label(p.key.as_str());
        let editor = property_editor(p.key.as_str(), p.value.as_str());
        let f = ObjectInspectorField {
            key: p.key.clone(),
            label,
            value: p.value.clone(),
            editor,
            read_only: false,
        };
        let ghost prev = v@;
        push_field(&mut v, f);
        proof {
            assert(props[i as int] == model::property_view(control.properties@[i as int]));
            assert(field_view(f) == property_field_view(props[i as int]));
            assert(props.take(i + 1).map_values(|p: (Seq<char>, Seq<char>)| property_field_view(p))
                =~= props.take(i as int).map_values(
                |p: (Seq<char>, Seq<char>)| property_field_view(p),
            ).push(property_field_view(props[i as int])));
        }
        if text::str_eq(p.key.as_str(), "glyph") {
            has_glyph = true;
        }
        i += 1;
    }
    proof {
        assert(props.take(props.len() as int) =~= props);
    }
    let is_button = match control.kind {
        ControlKind::Button => true,
        _ => false,
    };
    if is_button && !has_glyph {
        push_field(
            &mut v,
            ObjectInspectorField {
                key: text::owned("glyph"),
                label: text::owned("Glyph"),
                value: String::new(),
                editor: ObjectInspectorEditor::Text,
                read_only: false,
            },
        );
    }
    v
}


// ---------------------------------------------------------------------------
// Whole inspector views
// ---------------------------------------------------------------------------

pub open spec fn window_options_match(o: Ui2WindowInspectorOptions, w: Ui2Window) -> bool {
    &&& o.caption@ == w.caption@
    &&& o.min_size == w.options.min_size
    &&& o.max_size == w.options.max_size
    &&& o.resize_mode == w.options.resize_mode
    &&& o.scrollbars == w.options.scrollbars
    &&& o.vertical_scrollbar_side == w.options.vertical_scrollbar_side
    &&& o.horizontal_scrollbar_side == w.options.horizontal_scrollbar_side
    &&& o.hit_test_visible == w.options.hit_test_visible
    &&& o.preserve_scale == w.options.preserve_scale
    &&& text::strings_view(o.decoration_flags@) == model::decoration_flags(w.decorations)
}

fn flag_strings(d: &WindowDecorations) -> (v: Vec<String>)
    ensures
        text::strings_view(v@) == model::decoration_flags(*d),
{
    let flags = d.to_flags();
    let mut v: Vec<String> = Vec::new();
    let mut i: usize = 0;
    while i < flags.len()
        invariant
            i <= flags.len(),
            text::strings_view(v@) == model::str_views(flags@).take(i as int),
        decreases flags.len() - i,
    {
        let ghost before = v@;
        let item = text::owned(flags[i]);
        v.push(item);
        proof {
            assert(text::strings_view(v@) =~= text::strings_view(before).push(item@));
            assert(model::str_views(flags@)[i as int] == flags@[i as int]@);
            assert(model::str_views(flags@).take(i + 1) =~= model::str_views(flags@).take(
                i as int,
            ).push(flags@[i as int]@));
            assert(text::strings_view(v@) =~= model::str_views(flags@).take(i + 1));
        }
        i += 1;
    }
    proof {
        assert(model::str_views(flags@).take(flags.len() as int) =~= model::str_views(flags@));
    }
    v
}

impl Ui2WindowInspectorOptions {
    pub fn from_window(window: &Ui2Window) -> (o: Self)
        ensures
            window_options_match(o, *window),
    {
        Self {
            caption: window.caption.clone(),
            min_size: window.options.min_size,
            max_size: window.options.max_size,
            resize_mode: window.options.resize_mode,
            scrollbars: window.options.scrollbars,
            vertical_scrollbar_side: window.options.vertical_scrollbar_side,
            horizontal_scrollbar_side: window.options.horizontal_scrollbar_side,
            hit_test_visible: window.options.hit_test_visible,
            preserve_scale: window.options.preserve_scale,
            decoration_flags: flag_strings(&window.decorations),
        }
    }
}

impl Default for Ui2WindowInspectorOptions {
    fn default() -> (o: Self)
        ensures
            o.caption@ == Seq::<char>::empty(),
            o.min_size == crate::ui2_options::default_window_options().min_size,
            o.max_size == crate::ui2_options::default_window_options().max_size,
            o.resize_mode == crate::ui2_options::default_window_options().resize_mode,
            o.scrollbars == crate::ui2_options::default_window_options().scrollbars,
            o.vertical_scrollbar_side == crate::ui2_options::default_window_options().vertical_scrollbar_side,
            o.horizontal_scrollbar_side == crate::ui2_options::default_window_options().horizontal_scrollbar_side,
            o.hit_test_visible == crate::ui2_options::default_window_options().hit_test_visible,
            o.preserve_scale == crate::ui2_options::default_window_options().preserve_scale,
            text::strings_view(o.decoration_flags@) == model::decoration_flags(
                model::default_decorations(),
            ),
    {
        let options = Ui2WindowOptions::default();
        let decorations = WindowDecorations::default();
        Self {
            caption: String::new(),
            min_size: options.min_size,
            max_size: options.max_size,
            resize_mode: options.resize_mode,
            scrollbars: options.scrollbars,
            vertical_scrollbar_side: options.vertical_scrollbar_side,
            horizontal_scrollbar_side: options.horizontal_scrollbar_side,
            hit_test_visible: options.hit_test_visible,
            preserve_scale: options.preserve_scale,
            decoration_flags: flag_strings(&decorations),
        }
    }
}

/// The decoration fields: the joined flags (read-only) and one switch per
/// decoration.
pub open spec fn decoration_field_views(d: WindowDecorations) -> Seq<FieldView> {
    decoration_head_views(d) + decoration_tail_views(d)
}

/// The flags summary and the switches of the title bar row.
pub open spec fn decoration_head_views(d: WindowDecorations) -> Seq<FieldView> {
    seq![
        fv(
            "decoration-flags"@,
            "Decoration flags"@,
            text::join_seqs(model::decoration_flags(d), ", "@),
            EditorView::Text,
            true,
        ),
        fv("titlebar"@, "Titlebar"@, text::bool_text(d.titlebar), EditorView::Bool, false),
        fv("bottom-bar"@, "Bottom bar"@, text::bool_text(d.bottom_bar), EditorView::Bool, false),
        fv("title-icon"@, "Title icon"@, text::bool_text(d.title_icon), EditorView::Bool, false),
        fv(
            "toggle-composition"@,
            "Toggle composition"@,
            text::bool_text(d.toggle_composition),
            EditorView::Bool,
            false,
        ),
        fv("fork"@, "Fork"@, text::bool_text(d.fork), EditorView::Bool, false),
        fv("close"@, "Close"@, text::bool_text(d.close), EditorView::Bool, false),
        fv("minimize"@, "Minimize"@, text::bool_text(d.minimize), EditorView::Bool, false),
    ]
}

/// The switches for window state and behaviour.
pub open spec fn decoration_tail_views(d: WindowDecorations) -> Seq<FieldView> {
    seq![
        fv("restore"@, "Restore"@, text::bool_text(d.restore), EditorView::Bool, false),
        fv("maximize"@, "Maximize"@, text::bool_text(d.maximize), EditorView::Bool, false),
        fv("preserve-vm"@, "Preserve VM"@, text::bool_text(d.preserve_vm), EditorView::Bool, false),
        fv("resizable"@, "Resizable"@, text::bool_text(d.resizable), EditorView::Bool, false),
        fv(
            "resize-button"@,
            "Resize button"@,
            text::bool_text(d.resize_button),
            EditorView::Bool,
            false,
        ),
        fv(
            "rotate-buttons"@,
            "Rotate buttons"@,
            text::bool_text(d.rotate_buttons),
            EditorView::Bool,
            false,
        ),
        fv(
            "always-on-top"@,
            "Always on top"@,
            text::bool_text(d.always_on_top),
            EditorView::Bool,
            false,
        ),
    ]
}

fn push_decoration_head(v: &mut Vec<ObjectInspectorField>, d: &WindowDecorations)
    ensures
        fields_view(final(v)@) == fields_view(old(v)@) + decoration_head_views(*d),
{
    let ghost before = fields_view(v@);
    let flags = model::joined_flags(d);
    push_field(v, text_field("decoration-flags", "Decoration flags", flags.as_str(), true));
    push_field(v, bool_field("titlebar", "Titlebar", d.titlebar));
    push_field(v, bool_field("bottom-bar", "Bottom bar", d.bottom_bar));
    push_field(v, bool_field("title-icon", "Title icon", d.title_icon));
    push_field(v, bool_field("toggle-composition", "Toggle composition", d.toggle_composition));
    push_field(v, bool_field("fork", "Fork", d.fork));
    push_field(v, bool_field("close", "Close", d.close));
    push_field(v, bool_field("minimize", "Minimize", d.minimize));
    proof {
        assert(fields_view(v@) =~= before + decoration_head_views(*d));
    }
}

fn push_decoration_tail(v: &mut Vec<ObjectInspectorField>, d: &WindowDecorations)
    ensures
        fields_view(final(v)@) == fields_view(old(v)@) + decoration_tail_views(*d),
{
    let ghost before = fields_view(v@);
    push_field(v, bool_field("restore", "Restore", d.restore));
    push_field(v, bool_field("maximize", "Maximize", d.maximize));
    push_field(v, bool_field("preserve-vm", "Preserve VM", d.preserve_vm));
    push_field(v, bool_field("resizable", "Resizable", d.resizable));
    push_field(v, bool_field("resize-button", "Resize button", d.resize_button));
    push_field(v, bool_field("rotate-buttons", "Rotate buttons", d.rotate_buttons));
    push_field(v, bool_field("always-on-top", "Always on top", d.always_on_top));
    proof {
        assert(fields_view(v@) =~= before + decoration_tail_views(*d));
    }
}

fn decoration_fields(d: &WindowDecorations) -> (v: Vec<ObjectInspectorField>)
    ensures
        fields_view(v@) == decoration_field_views(*d),
{
    let mut v: Vec<ObjectInspectorField> = Vec::new();
    proof {
        assert(fields_view(v@) =~= Seq::<FieldView>::empty());
    }
    push_decoration_head(&mut v, d);
    push_decoration_tail(&mut v, d);
    proof {
        assert(fields_view(v@) =~= decoration_field_views(*d));
    }
    v
}

pub open spec fn sv(id: Seq<char>, label: Seq<char>, fields: Seq<FieldView>) -> (
    Seq<char>,
    Seq<char>,
    Seq<FieldView>,
) {
    (id, label, fields)
}

/// The sections the inspector shows for a window: identity, geometry,
/// window options, decorations and the HTML/CSS description.
pub open spec fn window_sections(w: Ui2Window) -> Seq<(Seq<char>, Seq<char>, Seq<FieldView>)> {
    seq![
        sv(
            "identity"@,
            "Identity"@,
            seq![
                fv("name"@, "Name"@, w.name@, EditorView::Text, true),
                fv("caption"@, "Caption"@, w.caption@, EditorView::Text, false),
            ],
        ),
        sv("geometry"@, "Geometry"@, rect_field_views(w.geometry)),
        sv("window-options"@, "Window Options"@, window_option_field_views(w)),
        sv("decorations"@, "Decorations"@, decoration_field_views(w.decorations)),
        sv(
            "ui-description"@,
            "UI Description"@,
            seq![
                fv(
                    "ui-description.html"@,
                    "HTML"@,
                    w.ui_description.html@,
                    EditorView::TextArea(Some("html"@)),
                    false,
                ),
                fv(
                    "ui-description.css"@,
                    "CSS"@,
                    w.ui_description.css@,
                    EditorView::TextArea(Some("css"@)),
                    false,
                ),
            ],
        ),
    ]
}

fn section(id: &str, label: &str, fields: Vec<ObjectInspectorField>) -> (s: ObjectInspectorSection)
    ensures
        section_view(s) == sv(id@, label@, fields_view(fields@)),
{
    ObjectInspectorSection { id: text::owned(id), label: text::owned(label), fields }
}

fn push_section(v: &mut Vec<ObjectInspectorSection>, s: ObjectInspectorSection)
    ensures
        sections_view(final(v)@) == sections_view(old(v)@).push(section_view(s)),
{
    let ghost before = v@;
    v.push(s);
    proof {
        assert(sections_view(v@) =~= sections_view(before).push(section_view(s)));
    }
}

pub fn object_inspector_for_window(window: &Ui2Window) -> (d: ObjectInspectorData)
    ensures
        d.window_id == window.id,
        d.target is Window,
        d.target->Window_id == window.id,
        d.target->Window_name@ == window.name@,
        d.window_options is Some,
        window_options_match(d.window_options->0, *window),
        d.ui_description is Some,
        d.ui_description->0.html@ == window.ui_description.html@,
        d.ui_description->0.css@ == window.ui_description.css@,
        sections_view(d.sections@) == window_sections(*window),
{
    let mut sections: Vec<ObjectInspectorSection> = Vec::new();
    let mut identity: Vec<ObjectInspectorField> = Vec::new();
    push_field(&mut identity, text_field("name", "Name", window.name.as_str(), true));
    push_field(&mut identity, text_field("caption", "Caption", window.caption.as_str(), false));
    proof {
        assert(fields_view(identity@) =~= window_sections(*window)[0].2);
    }
    push_section(&mut sections, section("identity", "Identity", identity));
    push_section(&mut sections, section("geometry", "Geometry", rect_fields(window.geometry)));
    push_section(
        &mut sections,
        section("window-options", "Window Options", window_option_fields(window)),
    );
    push_section(
        &mut sections,
        section("decorations", "Decorations", decoration_fields(&window.decorations)),
    );
    let mut description: Vec<ObjectInspectorField> = Vec::new();
    push_field(
        &mut description,
        text_area_field("ui-description.html", "HTML", window.ui_description.html.as_str(), "html"),
    );
    push_field(
        &mut description,
        text_area_field("ui-description.css", "CSS", window.ui_description.css.as_str(), "css"),
    );
    proof {
        assert(fields_view(description@) =~= window_sections(*window)[4].2);
    }
    push_section(&mut sections, section("ui-description", "UI Description", description));
    proof {
        assert(sections_view(sections@) =~= window_sections(*window));
    }
    ObjectInspectorData {
        window_id: window.id,
        target: ObjectInspectorTarget::Window { id: window.id, name: window.name.clone() },
        window_options: Some(Ui2WindowInspectorOptions::from_window(window)),
        ui_description: Some(window.ui_description.duplicate()),
        sections,
    }
}

pub open spec fn event_field_view(e: (Seq<char>, Seq<char>)) -> FieldView {
    fv(e.0, spec_property_label(e.0), e.1, EditorView::Text, false)
}

/// The sections the inspector shows for a control: identity, geometry,
/// properties and events.
pub open spec fn control_sections(c: Ui2Control) -> Seq<(Seq<char>, Seq<char>, Seq<FieldView>)> {
    seq![
        sv(
            "identity"@,
            "Identity"@,
            seq![
                fv("name"@, "Name"@, c.name@, EditorView::Text, false),
                fv("caption"@, "Caption"@, c.caption@, EditorView::Text, false),
                fv("kind"@, "Kind"@, kind_key(c.kind), EditorView::Select(kind_keys()), true),
            ],
        ),
        sv("geometry"@, "Geometry"@, rect_field_views(c.geometry)),
        sv("properties"@, "Properties"@, control_property_field_views(c)),
        sv(
            "events"@,
            "Events"@,
            model::events_view(c.events@).map_values(
                |e: (Seq<char>, Seq<char>)| event_field_view(e),
            ),
        ),
    ]
}

fn event_fields(control: &Ui2Control) -> (v: Vec<ObjectInspectorField>)
    ensures
        fields_view(v@) == model::events_view(control.events@).map_values(
            |e: (Seq<char>, Seq<char>)| event_field_view(e),
        ),
{
    let ghost evs = model::events_view(control.events@);
    let mut v: Vec<ObjectInspectorField> = Vec::new();
    let mut i: usize = 0;
    while i < control.events.len()
        invariant
            i <= control.events@.len(),
            evs == model::events_view(control.events@),
            fields_view(v@) == evs.take(i as int).map_values(
                |e: (Seq<char>, Seq<char>)| event_field_view(e),
            ),
        decreases control.events@.len() - i,
    {
        let e = &control.events[i];
        let label = property_label(e.event.as_str());
        let f = text_field(e.event.as_str(), label.as_str(), e.handler.as_str(), false);
        push_field(&mut v, f);
        proof {
            assert(evs[i as int] == model::event_view(control.events@[i as int]));
            assert(evs.take(i + 1).map_values(|e: (Seq<char>, Seq<char>)| event_field_view(e))
                =~= evs.take(i as int).map_values(|e: (Seq<char>, Seq<char>)| event_field_view(e)).push(
                event_field_view(evs[i as int]),
            ));
        }
        i += 1;
    }
    proof {
        assert(evs.take(evs.len() as int) =~= evs);
    }
    v
}

pub fn object_inspector_for_control(window_id: u128, control: &Ui2Control) -> (d: ObjectInspectorData)
    ensures
        d.window_id == window_id,
        d.target is Control,
        d.target->Control_id == control.id,
        d.target->Control_name@ == control.name@,
        d.target->Control_kind@ == kind_key(control.kind),
        d.window_options is None,
        d.ui_description is None,
        sections_view(d.sections@) == control_sections(*control),
{
    let mut sections: Vec<ObjectInspectorSection> = Vec::new();
    let mut identity: Vec<ObjectInspectorField> = Vec::new();
    push_field(&mut identity, text_field("name", "Name", control.name.as_str(), false));
    push_field(&mut identity, text_field("caption", "Caption", control.caption.as_str(), false));
    push_field(
        &mut identity,
        ObjectInspectorField {
            key: text::owned("kind"),
            label: text::owned("Kind"),
            value: text::owned(control_kind_key(control.kind)),
            editor: ObjectInspectorEditor::Select { options: control_kind_options() },
            read_only: true,
        },
    );
    proof {
        assert(fields_view(identity@) =~= control_sections(*control)[0].2);
    }
    push_section(&mut sections, section("identity", "Identity", identity));
    push_section(&mut sections, section("geometry", "Geometry", rect_fields(control.geometry)));
    push_section(
        &mut sections,
        section("properties", "Properties", control_property_fields(control)),
    );
    push_section(&mut sections, section("events", "Events", event_fields(control)));
    proof {
        assert(sections_view(sections@) =~= control_sections(*control));
    }
    ObjectInspectorData {
        window_id,
        target: ObjectInspectorTarget::Control {
            id: control.id,
            name: control.name.clone(),
            kind: text::owned(control_kind_key(control.kind)),
        },
        window_options: None,
        ui_description: None,
        sections,
    }
}

/// `d` is the inspector `object_inspector_for_window` gives for `window`.
pub open spec fn is_window_inspector(d: ObjectInspectorData, window: Ui2Window) -> bool {
    &&& d.window_id == window.id
    &&& d.target is Window
    &&& d.target->Window_id == window.id
    &&& d.target->Window_name@ == window.name@
    &&& d.window_options is Some
    &&& window_options_match(d.window_options->0, window)
    &&& d.ui_description is Some
    &&& d.ui_description->0.html@ == window.ui_description.html@
    &&& d.ui_description->0.css@ == window.ui_description.css@
    &&& sections_view(d.sections@) == window_sections(window)
}

/// `d` is the inspector `object_inspector_for_control` gives for `control`
/// in the window with the given id.
pub open spec fn is_control_inspector(d: ObjectInspectorData, window_id: u128, control: Ui2Control) -> bool {
    &&& d.window_id == window_id
    &&& d.target is Control
    &&& d.target->Control_id == control.id
    &&& d.target->Control_name@ == control.name@
    &&& d.target->Control_kind@ == kind_key(control.kind)
    &&& d.window_options is None
    &&& d.ui_description is None
    &&& sections_view(d.sections@) == control_sections(control)
}

/// The inspector for the selected control when it is in the window (the
/// first control with that id), else for the window itself.
pub fn object_inspector_for_selection(window: &Ui2Window, selected_control: Option<u128>) -> (d:
    ObjectInspectorData)
    ensures
        match selected_control {
            Some(id) => if has_control(window.controls@, id) {
                exists|i: int|
                    #[trigger] first_control_at(window.controls@, id, i) && is_control_inspector(
                        d,
                        window.id,
                        window.controls@[i],
                    )
            } else {
                is_window_inspector(d, *window)
            },
            None => is_window_inspector(d, *window),
        },
{
    match selected_control {
        Some(id) => match find_control(&window.controls, id) {
            Some(i) => {
                let d = object_inspector_for_control(window.id, &window.controls[i]);
                proof {
                    assert(first_control_at(window.controls@, id, i as int));
                }
                d
            },
            None => object_inspector_for_window(window),
        },
        None => object_inspector_for_window(window),
    }
}

} // verus!
