//! The RADS project model: app and package blueprints, UI2 windows,
//! controls, events and geometry, together with project-name validation,
//! slugs and generated handler names.

use vstd::prelude::*;
use crate::text;
use crate::ui2_options::{self, Ui2HtmlCssDescription, Ui2WindowOptions};

verus! {

pub const MAX_PROJECT_NAME_LEN: usize = 80;

pub const MAX_PROJECT_SLUG_LEN: usize = 64;

/// The version written into generated blueprint metadata.
pub const GENERATOR_VERSION: &'static str = "0.1.0";

// ---------------------------------------------------------------------------
// Identifiers
// ---------------------------------------------------------------------------

/// `uuid::Uuid::new_v4`, taken as its 128-bit big-endian value. The value is
/// random; what every outcome has is the version nibble 4 and the RFC 4122
/// variant bits `10`.
#[verifier::external_body]
pub(crate) fn new_id() -> (id: u128)
    ensures
        (id >> 76u128) & 0xfu128 == 4u128,
        (id >> 62u128) & 0x3u128 == 2u128,
{
    uuid::Uuid::new_v4().as_u128()
}

// ---------------------------------------------------------------------------
// Types
// ---------------------------------------------------------------------------

#[derive(Debug)]
pub struct RadsProject {
    pub id: u128,
    pub name: String,
    pub slug: String,
    pub root: String,
    pub app_kind: AppKind,
    pub blueprint: AppBlueprint,
    pub package: PackageBlueprint,
    pub windows: Vec<Ui2Window>,
}

#[derive(Debug, Clone, Copy, PartialEq, Eq, Structural)]
pub enum AppKind {
    Ui2,
    Service,
    Shell,
}

pub open spec fn app_kind_label(k: AppKind) -> Seq<char> {
    match k {
        AppKind::Ui2 => "UI2 App"@,
        AppKind::Service => "Background Service"@,
        AppKind::Shell => "Shell App"@,
    }
}

pub open spec fn app_kind_runtime(k: AppKind) -> Seq<char> {
    match k {
        AppKind::Ui2 => "TRUEOS/UI2"@,
        AppKind::Service => "TRUEOS/service"@,
        AppKind::Shell => "TRUEOS/shell"@,
    }
}

pub open spec fn app_kind_package_target(k: AppKind) -> Seq<char> {
    match k {
        AppKind::Ui2 => "trueos-ui2"@,
        AppKind::Service => "trueos-service"@,
        AppKind::Shell => "trueos-shell"@,
    }
}

impl AppKind {
    pub fn label(self) -> (s: &'static str)
        ensures
            s@ == app_kind_label(self),
    {
        match self {
            Self::Ui2 => "UI2 App",
            Self::Service => "Background Service",
            Self::Shell => "Shell App",
        }
    }

    pub fn runtime(self) -> (s: &'static str)
        ensures
            s@ == app_kind_runtime(self),
    {
        match self {
            Self::Ui2 => "TRUEOS/UI2",
            Self::Service => "TRUEOS/service",
            Self::Shell => "TRUEOS/shell",
        }
    }

    pub fn package_target(self) -> (s: &'static str)
        ensures
            s@ == app_kind_package_target(self),
    {
        match self {
            Self::Ui2 => "trueos-ui2",
            Self::Service => "trueos-service",
            Self::Shell => "trueos-shell",
        }
    }

    /// Only UI2 apps have UI2 windows.
    pub fn has_ui2(self) -> (b: bool)
        ensures
            b == (self == AppKind::Ui2),
    {
        matches!(self, Self::Ui2)
    }
}

impl Default for AppKind {
    fn default() -> (k: Self)
        ensures
            k == AppKind::Ui2,
    {
        Self::Ui2
    }
}

#[derive(Debug)]
pub struct AppBlueprint {
    pub schema: String,
    pub app_id: String,
    pub slug: String,
    pub display_name: String,
    pub version: String,
    pub entrypoint: String,
    pub ui_layout: String,
    pub description: String,
    pub license: String,
    pub authors: Vec<String>,
    pub capabilities: Vec<Capability>,
    pub metadata: BlueprintMetadata,
}

#[derive(Debug)]
pub struct PackageBlueprint {
    pub schema: String,
    pub package_id: String,
    pub app_id: String,
    pub name: String,
    pub version: String,
    pub entrypoint: String,
    pub artifacts: Vec<PackageArtifact>,
    pub metadata: BlueprintMetadata,
}

#[derive(Debug)]
pub struct PackageArtifact {
    pub kind: String,
    pub path: String,
    pub target: String,
}

#[derive(Debug)]
pub struct BlueprintMetadata {
    pub generator: String,
    pub generator_version: String,
    pub ui_runtime: String,
    pub schema_version: String,
}

#[derive(Debug)]
pub struct Capability {
    pub key: String,
    pub enabled: bool,
    pub note: String,
}

#[derive(Debug)]
pub struct Ui2Window {
    pub id: u128,
    pub name: String,
    pub caption: String,
    pub title_twemoji: Option<String>,
    pub geometry: Rect,
    pub decorations: WindowDecorations,
    pub options: Ui2WindowOptions,
    pub ui_description: Ui2HtmlCssDescription,
    pub controls: Vec<Ui2Control>,
}

#[derive(Debug, Clone, Copy, PartialEq, Eq, Structural)]
pub struct Rect {
    pub x: i32,
    pub y: i32,
    pub w: u32,
    pub h: u32,
}

#[derive(Debug, Clone, Copy, PartialEq, Eq, Structural)]
pub enum WindowDecorationMode {
    System,
    Custom,
}

pub open spec fn decoration_mode_text(m: WindowDecorationMode) -> Seq<char> {
    match m {
        WindowDecorationMode::System => "system"@,
        WindowDecorationMode::Custom => "custom"@,
    }
}

impl WindowDecorationMode {
    pub fn as_str(self) -> (s: &'static str)
        ensures
            s@ == decoration_mode_text(self),
    {
        match self {
            Self::System => "system",
            Self::Custom => "custom",
        }
    }

    /// The name of the matching `vui2::WindowDecorationMode` variant.
    pub fn vui2_variant(self) -> (s: &'static str)
        ensures
            s@ == (match self {
                WindowDecorationMode::System => "System"@,
                WindowDecorationMode::Custom => "Custom"@,
            }),
    {
        match self {
            Self::System => "System",
            Self::Custom => "Custom",
        }
    }

    pub fn options() -> (v: Vec<String>)
        ensures
            text::strings_view(v@) == seq!["system"@, "custom"@],
    {
        let v = vec![text::owned("system"), text::owned("custom")];
        proof {
            assert(text::strings_view(v@) =~= seq!["system"@, "custom"@]);
        }
        v
    }
}

#[derive(Debug, Clone, Copy, PartialEq, Eq, Structural)]
pub struct WindowDecorations {
    pub mode: WindowDecorationMode,
    pub titlebar: bool,
    pub bottom_bar: bool,
    pub title_icon: bool,
    pub toggle_composition: bool,
    pub fork: bool,
    pub close: bool,
    pub minimize: bool,
    pub restore: bool,
    pub maximize: bool,
    pub preserve_vm: bool,
    pub resizable: bool,
    pub resize_button: bool,
    pub rotate_buttons: bool,
    pub always_on_top: bool,
}

#[derive(Debug)]
pub struct Ui2Control {
    pub id: u128,
    pub kind: ControlKind,
    pub name: String,
    pub caption: String,
    pub geometry: Rect,
    pub properties: Vec<Property>,
    pub events: Vec<EventBinding>,
}

#[derive(Debug, Clone, Copy, PartialEq, Eq, Structural)]
pub enum ControlKind {
    Button,
    Label,
    TextBox,
    CheckBox,
    Panel,
    ListBox,
    Canvas,
    Menu,
    Toolbar,
}

#[derive(Debug, Clone, PartialEq, Eq)]
pub struct Property {
    pub key: String,
    pub value: String,
}

#[derive(Debug, Clone, PartialEq, Eq)]
pub struct EventBinding {
    pub event: String,
    pub handler: String,
}

#[derive(Debug, Clone, PartialEq, Eq)]
pub struct ValidProjectName {
    pub display: String,
    pub slug: String,
}

#[derive(Debug, Clone, Copy, PartialEq, Eq, Structural)]
pub enum ProjectNameError {
    Empty,
    TooLong { max: usize },
    ContainsPathSeparator,
    ContainsControlCharacter,
    NoSlug,
    ReservedName,
}

// ---------------------------------------------------------------------------
// Views
// ---------------------------------------------------------------------------

pub open spec fn property_view(p: Property) -> (Seq<char>, Seq<char>) {
    (p.key@, p.value@)
}

pub open spec fn properties_view(v: Seq<Property>) -> Seq<(Seq<char>, Seq<char>)> {
    v.map_values(|p: Property| property_view(p))
}

pub open spec fn event_view(e: EventBinding) -> (Seq<char>, Seq<char>) {
    (e.event@, e.handler@)
}

pub open spec fn events_view(v: Seq<EventBinding>) -> Seq<(Seq<char>, Seq<char>)> {
    v.map_values(|e: EventBinding| event_view(e))
}

impl Property {
    pub fn duplicate(&self) -> (p: Property)
        ensures
            p.key@ == self.key@,
            p.value@ == self.value@,
    {
        Property { key: self.key.clone(), value: self.value.clone() }
    }
}

impl EventBinding {
    pub fn duplicate(&self) -> (e: EventBinding)
        ensures
            e.event@ == self.event@,
            e.handler@ == self.handler@,
    {
        EventBinding { event: self.event.clone(), handler: self.handler.clone() }
    }
}

/// A property with the given key and value.
pub fn property(key: &str, value: &str) -> (p: Property)
    ensures
        p.key@ == key@,
        p.value@ == value@,
{
    Property { key: text::owned(key), value: text::owned(value) }
}

/// A copy of a property list with the same keys and values in the same order.
pub fn duplicate_properties(v: &Vec<Property>) -> (r: Vec<Property>)
    ensures
        properties_view(r@) == properties_view(v@),
{
    let mut r: Vec<Property> = Vec::new();
    let mut i: usize = 0;
    while i < v.len()
        invariant
            i <= v.len(),
            properties_view(r@) == properties_view(v@.take(i as int)),
        decreases v.len() - i,
    {
        let p = v[i].duplicate();
        let ghost before = r@;
        r.push(p);
        proof {
            assert(v@.take(i + 1) =~= v@.take(i as int).push(v@[i as int]));
            assert(properties_view(r@) =~= properties_view(before).push(property_view(p)));
            assert(properties_view(v@.take(i + 1)) =~= properties_view(v@.take(i as int)).push(
                property_view(v@[i as int]),
            ));
        }
        i += 1;
    }
    proof {
        assert(v@.take(v.len() as int) == v@);
    }
    r
}

/// A copy of an event list with the same events and handlers in the same order.
pub fn duplicate_events(v: &Vec<EventBinding>) -> (r: Vec<EventBinding>)
    ensures
        events_view(r@) == events_view(v@),
{
    let mut r: Vec<EventBinding> = Vec::new();
    let mut i: usize = 0;
    while i < v.len()
        invariant
            i <= v.len(),
            events_view(r@) == events_view(v@.take(i as int)),
        decreases v.len() - i,
    {
        let e = v[i].duplicate();
        let ghost before = r@;
        r.push(e);
        proof {
            assert(v@.take(i + 1) =~= v@.take(i as int).push(v@[i as int]));
            assert(events_view(r@) =~= events_view(before).push(event_view(e)));
            assert(events_view(v@.take(i + 1)) =~= events_view(v@.take(i as int)).push(
                event_view(v@[i as int]),
            ));
        }
        i += 1;
    }
    proof {
        assert(v@.take(v.len() as int) == v@);
    }
    r
}

// ---------------------------------------------------------------------------
// Decorations
// ---------------------------------------------------------------------------

/// System decorations with every button but rotation, resizable, not on top.
pub open spec fn default_decorations() -> WindowDecorations {
    WindowDecorations {
        mode: WindowDecorationMode::System,
        titlebar: true,
        bottom_bar: true,
        title_icon: true,
        toggle_composition: true,
        fork: true,
        close: true,
        minimize: true,
        restore: true,
        maximize: true,
        preserve_vm: true,
        resizable: true,
        resize_button: true,
        rotate_buttons: false,
        always_on_top: false,
    }
}

impl Default for WindowDecorations {
    fn default() -> (d: Self)
        ensures
            d == default_decorations(),
    {
        Self {
            mode: WindowDecorationMode::System,
            titlebar: true,
            bottom_bar: true,
            title_icon: true,
            toggle_composition: true,
            fork: true,
            close: true,
            minimize: true,
            restore: true,
            maximize: true,
            preserve_vm: true,
            resizable: true,
            resize_button: true,
            rotate_buttons: false,
            always_on_top: false,
        }
    }
}

pub open spec fn flag_if(on: bool, flag: Seq<char>) -> Seq<Seq<char>> {
    if on {
        seq![flag]
    } else {
        Seq::empty()
    }
}

/// The readable decoration flags: the enabled ones among titlebar, close,
/// minimize, maximize, resizable and always-on-top, in that order.
pub open spec fn decoration_flags(d: WindowDecorations) -> Seq<Seq<char>> {
    flag_if(d.titlebar, "titlebar"@) + flag_if(d.close, "close"@) + flag_if(
        d.minimize,
        "minimize"@,
    ) + flag_if(d.maximize, "maximize"@) + flag_if(d.resizable, "resizable"@) + flag_if(
        d.always_on_top,
        "always-on-top"@,
    )
}

pub open spec fn str_views(v: Seq<&'static str>) -> Seq<Seq<char>> {
    v.map_values(|s: &'static str| s@)
}

/// The decoration literal written into UI2 layouts and generated Rust.
pub open spec fn decorations_literal(d: WindowDecorations) -> Seq<char> {
    "{ titlebar: "@ + text::bool_text(d.titlebar) + ", close: "@ + text::bool_text(d.close)
        + ", minimize: "@ + text::bool_text(d.minimize) + ", maximize: "@ + text::bool_text(
        d.maximize,
    ) + ", resizable: "@ + text::bool_text(d.resizable) + ", always_on_top: "@
        + text::bool_text(d.always_on_top) + " }"@
}

fn push_flag(v: &mut Vec<&'static str>, on: bool, flag: &'static str)
    ensures
        str_views(final(v)@) == str_views(old(v)@) + flag_if(on, flag@),
{
    let ghost before = v@;
    if on {
        v.push(flag);
        proof {
            assert(str_views(v@) =~= str_views(before) + flag_if(on, flag@));
        }
    } else {
        proof {
            assert(str_views(v@) =~= str_views(before) + flag_if(on, flag@));
        }
    }
}

impl WindowDecorations {
    pub fn to_flags(&self) -> (v: Vec<&'static str>)
        ensures
            str_views(v@) == decoration_flags(*self),
    {
        let mut v: Vec<&'static str> = Vec::new();
        proof {
            assert(str_views(v@) =~= Seq::<Seq<char>>::empty());
        }
        push_flag(&mut v, self.titlebar, "titlebar");
        push_flag(&mut v, self.close, "close");
        push_flag(&mut v, self.minimize, "minimize");
        push_flag(&mut v, self.maximize, "maximize");
        push_flag(&mut v, self.resizable, "resizable");
        push_flag(&mut v, self.always_on_top, "always-on-top");
        proof {
            assert(str_views(v@) =~= decoration_flags(*self));
        }
        v
    }

    pub fn to_ui2_literal(&self) -> (s: String)
        ensures
            s@ == decorations_literal(*self),
    {
        let mut s = text::owned("{ titlebar: ");
        text::push_bool(&mut s, self.titlebar);
        text::push_str(&mut s, ", close: ");
        text::push_bool(&mut s, self.close);
        text::push_str(&mut s, ", minimize: ");
        text::push_bool(&mut s, self.minimize);
        text::push_str(&mut s, ", maximize: ");
        text::push_bool(&mut s, self.maximize);
        text::push_str(&mut s, ", resizable: ");
        text::push_bool(&mut s, self.resizable);
        text::push_str(&mut s, ", always_on_top: ");
        text::push_bool(&mut s, self.always_on_top);
        text::push_str(&mut s, " }");
        s
    }
}

/// The flags joined with `", "`, as the readable layout and the inspector
/// show them.
pub fn joined_flags(d: &WindowDecorations) -> (s: String)
    ensures
        s@ == text::join_seqs(decoration_flags(*d), ", "@),
{
    let flags = d.to_flags();
    let mut s = String::new();
    let mut i: usize = 0;
    while i < flags.len()
        invariant
            i <= flags.len(),
            str_views(flags@) == decoration_flags(*d),
            s@ == text::join_seqs(str_views(flags@).take(i as int), ", "@),
        decreases flags.len() - i,
    {
        proof {
            assert(str_views(flags@).take(i + 1).drop_last() =~= str_views(flags@).take(i as int));
        }
        if i > 0 {
            text::push_str(&mut s, ", ");
        }
        text::push_str(&mut s, flags[i]);
        i += 1;
    }
    proof {
        assert(str_views(flags@).take(flags.len() as int) =~= str_views(flags@));
    }
    s
}

// ---------------------------------------------------------------------------
// Project names and slugs
// ---------------------------------------------------------------------------

/// `char::to_lowercase`: the lowercase mapping of a character, one or more
/// characters long.
pub uninterp spec fn char_lowercase(c: char) -> Seq<char>;

/// `char::to_lowercase`, collected. Its result is named `char_lowercase`;
/// for an ASCII character it is the ASCII lowercase letter (or the character
/// itself), as the Unicode case mapping gives it, and no character of a
/// lowercase mapping is an ASCII capital. Nothing more is stated of
/// non-ASCII characters.
#[verifier::external_body]
fn lowercase_of(c: char) -> (r: Vec<char>)
    ensures
        r@ == char_lowercase(c),
        c <= '\u{7f}' ==> r@ == seq![text::ascii_lower(c)],
        forall|i: int| 0 <= i < r@.len() ==> !text::is_ascii_upper(#[trigger] r@[i]),
{
    c.to_lowercase().collect()
}

/// The lowercase mapping of one character: for ASCII the ASCII lowercase
/// letter (or the character itself), otherwise `char_lowercase`.
pub open spec fn lower_of(c: char) -> Seq<char> {
    if c <= '\u{7f}' {
        seq![text::ascii_lower(c)]
    } else {
        char_lowercase(c)
    }
}

/// The characters of `s` after the Unicode lowercase mapping, in order.
pub open spec fn lowered(s: Seq<char>) -> Seq<char>
    decreases s.len(),
{
    if s.len() == 0 {
        Seq::empty()
    } else {
        lowered(s.drop_last()) + lower_of(s.last())
    }
}

pub struct SlugState {
    pub out: Seq<char>,
    pub last_dash: bool,
    pub stopped: bool,
}

/// One lowercase character of slug building: ASCII letters and digits are
/// kept while the slug is shorter than the limit (the first one past the
/// limit ends the slug), and a run of anything else becomes one dash when the
/// slug is non-empty and below the limit.
pub open spec fn slug_step(st: SlugState, c: char) -> SlugState {
    if st.stopped {
        st
    } else if text::is_ascii_alnum(c) {
        if st.out.len() >= 64 {
            SlugState { stopped: true, ..st }
        } else {
            SlugState { out: st.out.push(c), last_dash: false, ..st }
        }
    } else if !st.last_dash && st.out.len() > 0 && st.out.len() < 64 {
        SlugState { out: st.out.push('-'), last_dash: true, ..st }
    } else {
        st
    }
}

pub open spec fn slug_run(s: Seq<char>) -> SlugState
    decreases s.len(),
{
    if s.len() == 0 {
        SlugState { out: Seq::empty(), last_dash: false, stopped: false }
    } else {
        slug_step(slug_run(s.drop_last()), s.last())
    }
}

/// The slug of a name: lowercase ASCII letters and digits with single dashes
/// for everything else, at most 64 characters, without dashes at the ends.
pub open spec fn spec_slugify(s: Seq<char>) -> Seq<char> {
    text::trim_matches_seq(slug_run(lowered(s)).out, '-')
}

proof fn lemma_slug_out_ascii(s: Seq<char>)
    ensures
        slug_run(s).out.len() <= 64,
        forall|i: int|
            0 <= i < slug_run(s).out.len() ==> text::is_ascii_alnum(#[trigger] slug_run(s).out[i])
                || slug_run(s).out[i] == '-',
    decreases s.len(),
{
    if s.len() > 0 {
        lemma_slug_out_ascii(s.drop_last());
    }
}

pub fn slugify(input: &str) -> (r: String)
    ensures
        r@ == spec_slugify(input@),
        forall|i: int| 0 <= i < r@.len() ==> crate::laws::lower_slug_char(#[trigger] r@[i]),
        spec_slugify(r@) == r@,
{
    let chars = text::chars_of(input);
    let mut out: Vec<char> = Vec::new();
    let mut last_dash = false;
    let mut stopped = false;
    let mut i: usize = 0;
    while i < chars.len()
        invariant
            i <= chars.len(),
            chars@ == input@,
            ({
                let st = slug_run(lowered(chars@.take(i as int)));
                &&& st.out == out@
                &&& st.last_dash == last_dash
                &&& st.stopped == stopped
            }),
            crate::laws::no_ascii_upper(out@),
        decreases chars.len() - i,
    {
        let lc = lowercase_of(chars[i]);
        proof {
            assert(lc@ == lower_of(chars@[i as int]));
        }
        let ghost base = lowered(chars@.take(i as int));
        proof {
            assert(chars@.take(i + 1).drop_last() =~= chars@.take(i as int));
            assert(base + lc@.take(0) =~= base);
        }
        let mut j: usize = 0;
        while j < lc.len()
            invariant
                j <= lc.len(),
                ({
                    let st = slug_run(base + lc@.take(j as int));
                    &&& st.out == out@
                    &&& st.last_dash == last_dash
                    &&& st.stopped == stopped
                }),
                crate::laws::no_ascii_upper(out@),
                forall|k: int| 0 <= k < lc@.len() ==> !text::is_ascii_upper(#[trigger] lc@[k]),
            decreases lc.len() - j,
        {
            let c = lc[j];
            proof {
                assert((base + lc@.take(j + 1)).drop_last() =~= base + lc@.take(j as int));
            }
            if !stopped {
                if text::ascii_alnum(c) {
                    if out.len() >= 64 {
                        stopped = true;
                    } else {
                        out.push(c);
                        last_dash = false;
                    }
                } else if !last_dash && out.len() > 0 && out.len() < 64 {
                    out.push('-');
                    last_dash = true;
                }
            }
            j += 1;
        }
        proof {
            assert(lc@.take(lc.len() as int) =~= lc@);
        }
        i += 1;
    }
    proof {
        assert(chars@.take(chars.len() as int) =~= chars@);
        crate::laws::lemma_lower_slug_is_stable(input@);
    }
    let trimmed = text::trim_matches_chars(&out, '-');
    text::string_of(&trimmed)
}

pub open spec fn reserved_names() -> Seq<Seq<char>> {
    seq![
        "."@,
        ".."@,
        "con"@,
        "prn"@,
        "aux"@,
        "nul"@,
        "com1"@,
        "com2"@,
        "com3"@,
        "com4"@,
        "com5"@,
        "com6"@,
        "com7"@,
        "com8"@,
        "com9"@,
        "lpt1"@,
        "lpt2"@,
        "lpt3"@,
        "lpt4"@,
        "lpt5"@,
        "lpt6"@,
        "lpt7"@,
        "lpt8"@,
        "lpt9"@,
    ]
}

/// Names that filesystems reserve for devices or directory links.
pub fn is_reserved_name(slug: &str) -> (b: bool)
    ensures
        b == reserved_names().contains(slug@),
{
    let names: Vec<&'static str> = vec![
        ".",
        "..",
        "con",
        "prn",
        "aux",
        "nul",
        "com1",
        "com2",
        "com3",
        "com4",
        "com5",
        "com6",
        "com7",
        "com8",
        "com9",
        "lpt1",
        "lpt2",
        "lpt3",
        "lpt4",
        "lpt5",
        "lpt6",
        "lpt7",
        "lpt8",
        "lpt9",
    ];
    proof {
        assert(str_views(names@) =~= reserved_names());
    }
    let mut i: usize = 0;
    while i < names.len()
        invariant
            i <= names.len(),
            str_views(names@) == reserved_names(),
            forall|k: int| 0 <= k < i ==> reserved_names()[k] != slug@,
        decreases names.len() - i,
    {
        if text::str_eq(names[i], slug) {
            proof {
                assert(reserved_names()[i as int] == slug@);
            }
            return true;
        }
        i += 1;
    }
    false
}

pub open spec fn has_path_separator(s: Seq<char>) -> bool {
    s.contains('/') || s.contains('\\')
}

pub open spec fn has_control_char(s: Seq<char>) -> bool {
    exists|i: int| 0 <= i < s.len() && text::is_unicode_control(#[trigger] s[i])
}

/// What `validate_project_name` decides: the trimmed display name and its
/// slug, or the first rule the name breaks.
pub open spec fn spec_validate_project_name(input: Seq<char>) -> Result<
    (Seq<char>, Seq<char>),
    ProjectNameError,
> {
    let display = text::trim_seq(input);
    if display.len() == 0 {
        Err(ProjectNameError::Empty)
    } else if display.len() > 80 {
        Err(ProjectNameError::TooLong { max: 80 })
    } else if has_path_separator(display) {
        Err(ProjectNameError::ContainsPathSeparator)
    } else if has_control_char(display) {
        Err(ProjectNameError::ContainsControlCharacter)
    } else if spec_slugify(display).len() == 0 {
        Err(ProjectNameError::NoSlug)
    } else if reserved_names().contains(spec_slugify(display)) {
        Err(ProjectNameError::ReservedName)
    } else {
        Ok((display, spec_slugify(display)))
    }
}

pub fn validate_project_name(input: &str) -> (r: Result<ValidProjectName, ProjectNameError>)
    ensures
        match spec_validate_project_name(input@) {
            Ok((display, slug)) => r is Ok && r->Ok_0.display@ == display && r->Ok_0.slug@
                == slug,
            Err(e) => r == Err::<ValidProjectName, ProjectNameError>(e),
        },
{
    let chars = text::chars_of(input);
    let display = text::trim_chars(&chars);
    if display.len() == 0 {
        return Err(ProjectNameError::Empty);
    }
    if display.len() > MAX_PROJECT_NAME_LEN {
        return Err(ProjectNameError::TooLong { max: MAX_PROJECT_NAME_LEN });
    }
    let mut i: usize = 0;
    while i < display.len()
        invariant
            i <= display.len(),
            display@ == text::trim_seq(input@),
            display@.len() <= 80,
            forall|k: int| 0 <= k < i ==> display@[k] != '/' && display@[k] != '\\',
        decreases display.len() - i,
    {
        if display[i] == '/' || display[i] == '\\' {
            proof {
                if display@[i as int] == '/' {
                    assert(display@.contains('/'));
                } else {
                    assert(display@.contains('\\'));
                }
            }
            return Err(ProjectNameError::ContainsPathSeparator);
        }
        i += 1;
    }
    proof {
        assert(!display@.contains('/'));
        assert(!display@.contains('\\'));
    }
    let mut i: usize = 0;
    while i < display.len()
        invariant
            i <= display.len(),
            display@ == text::trim_seq(input@),
            display@.len() <= 80,
            !has_path_separator(display@),
            forall|k: int| 0 <= k < i ==> !text::is_unicode_control(#[trigger] display@[k]),
        decreases display.len() - i,
    {
        if text::unicode_control(display[i]) {
            proof {
                assert(text::is_unicode_control(display@[i as int]));
            }
            return Err(ProjectNameError::ContainsControlCharacter);
        }
        i += 1;
    }
    let display_text = text::string_of(&display);
    let slug = slugify(display_text.as_str());
    if slug.as_str().is_empty() {
        return Err(ProjectNameError::NoSlug);
    }
    if is_reserved_name(slug.as_str()) {
        return Err(ProjectNameError::ReservedName);
    }
    Ok(ValidProjectName { display: display_text, slug })
}


pub open spec fn project_name_error_text(e: ProjectNameError) -> Seq<char> {
    match e {
        ProjectNameError::Empty => "project name cannot be empty"@,
        ProjectNameError::TooLong { max } => "project name must be "@ + text::nat_decimal(
            max as nat,
        ) + " characters or fewer"@,
        ProjectNameError::ContainsPathSeparator => "project name cannot contain path separators"@,
        ProjectNameError::ContainsControlCharacter =>
            "project name cannot contain control characters"@,
        ProjectNameError::NoSlug => "project name must contain at least one ASCII letter or number"@,
        ProjectNameError::ReservedName => "project name is reserved by the filesystem"@,
    }
}

impl ProjectNameError {
    /// The message shown for this error.
    pub fn message(&self) -> (s: String)
        ensures
            s@ == project_name_error_text(*self),
    {
        match self {
            ProjectNameError::Empty => text::owned("project name cannot be empty"),
            ProjectNameError::TooLong { max } => {
                let mut s = text::owned("project name must be ");
                text::push_u64(&mut s, *max as u64);
                text::push_str(&mut s, " characters or fewer");
                s
            },
            ProjectNameError::ContainsPathSeparator => text::owned(
                "project name cannot contain path separators",
            ),
            ProjectNameError::ContainsControlCharacter => text::owned(
                "project name cannot contain control characters",
            ),
            ProjectNameError::NoSlug => text::owned(
                "project name must contain at least one ASCII letter or number",
            ),
            ProjectNameError::ReservedName => text::owned(
                "project name is reserved by the filesystem",
            ),
        }
    }
}

// ---------------------------------------------------------------------------
// Handler names
// ---------------------------------------------------------------------------

pub struct FragmentState {
    pub out: Seq<char>,
    pub separated: bool,
}

/// One character of an identifier fragment: letters and digits are kept in
/// lowercase, with `_` before an uppercase letter that follows a letter or
/// digit (camelCase becomes snake_case), and a run of anything else becomes
/// one `_` once the fragment has started.
pub open spec fn fragment_step(st: FragmentState, c: char) -> FragmentState {
    if text::is_ascii_alnum(c) {
        let o = if text::is_ascii_upper(c) && st.out.len() > 0 && !st.separated {
            st.out.push('_')
        } else {
            st.out
        };
        FragmentState { out: o.push(text::ascii_lower(c)), separated: false }
    } else if st.out.len() > 0 && !st.separated {
        FragmentState { out: st.out.push('_'), separated: true }
    } else {
        st
    }
}

pub open spec fn fragment_run(s: Seq<char>) -> FragmentState
    decreases s.len(),
{
    if s.len() == 0 {
        FragmentState { out: Seq::empty(), separated: false }
    } else {
        fragment_step(fragment_run(s.drop_last()), s.last())
    }
}

/// `control` for an empty result, a `c_` prefix for one that starts with a
/// digit, otherwise the characters themselves.
pub open spec fn identifier_finish(t: Seq<char>) -> Seq<char> {
    if t.len() == 0 {
        "control"@
    } else if text::is_ascii_digit(t[0]) {
        "c_"@ + t
    } else {
        t
    }
}

/// The snake_case fragment of a control or event name used in handler names.
pub open spec fn spec_identifier_fragment(s: Seq<char>) -> Seq<char> {
    identifier_finish(text::trim_matches_seq(fragment_run(s).out, '_'))
}

pub open spec fn spec_handler_name(control: Seq<char>, event: Seq<char>) -> Seq<char> {
    "on_"@ + spec_identifier_fragment(control) + "_"@ + spec_identifier_fragment(event)
}

/// Applies `identifier_finish` to trimmed characters.
pub fn finish_identifier(t: &Vec<char>) -> (s: String)
    ensures
        s@ == identifier_finish(t@),
{
    if t.len() == 0 {
        text::owned("control")
    } else if text::ascii_digit(t[0]) {
        let mut s = text::owned("c_");
        let rest = text::string_of(t);
        text::push_str(&mut s, rest.as_str());
        s
    } else {
        text::string_of(t)
    }
}

pub fn identifier_fragment(input: &str) -> (r: String)
    ensures
        r@ == spec_identifier_fragment(input@),
{
    let chars = text::chars_of(input);
    let mut out: Vec<char> = Vec::new();
    let mut separated = false;
    let mut i: usize = 0;
    while i < chars.len()
        invariant
            i <= chars.len(),
            chars@ == input@,
            fragment_run(chars@.take(i as int)).out == out@,
            fragment_run(chars@.take(i as int)).separated == separated,
        decreases chars.len() - i,
    {
        let c = chars[i];
        proof {
            assert(chars@.take(i + 1).drop_last() =~= chars@.take(i as int));
        }
        if text::ascii_alnum(c) {
            if text::ascii_upper_case(c) && out.len() > 0 && !separated {
                out.push('_');
            }
            out.push(text::to_ascii_lower(c));
            separated = false;
        } else if out.len() > 0 && !separated {
            out.push('_');
            separated = true;
        }
        i += 1;
    }
    proof {
        assert(chars@.take(chars.len() as int) =~= chars@);
    }
    let trimmed = text::trim_matches_chars(&out, '_');
    finish_identifier(&trimmed)
}

/// `on_<control>_<event>` with both parts turned into identifier fragments.
pub fn event_handler_name(control_name: &str, event_name: &str) -> (r: String)
    ensures
        r@ == spec_handler_name(control_name@, event_name@),
{
    let mut r = text::owned("on_");
    let c = identifier_fragment(control_name);
    text::push_str(&mut r, c.as_str());
    text::push_str(&mut r, "_");
    let e = identifier_fragment(event_name);
    text::push_str(&mut r, e.as_str());
    r
}

// ---------------------------------------------------------------------------
// Controls and windows
// ---------------------------------------------------------------------------

/// The event a new control is wired to.
pub open spec fn default_event(kind: ControlKind) -> Seq<char> {
    match kind {
        ControlKind::Button | ControlKind::CheckBox => "click"@,
        ControlKind::TextBox => "change"@,
        ControlKind::ListBox => "select"@,
        ControlKind::Canvas => "draw"@,
        _ => "ready"@,
    }
}

pub fn default_event_name(kind: ControlKind) -> (s: &'static str)
    ensures
        s@ == default_event(kind),
{
    match kind {
        ControlKind::Button | ControlKind::CheckBox => "click",
        ControlKind::TextBox => "change",
        ControlKind::ListBox => "select",
        ControlKind::Canvas => "draw",
        _ => "ready",
    }
}

/// The one property a control built by `Ui2Control::new` starts with.
pub open spec fn starter_property(kind: ControlKind) -> (Seq<char>, Seq<char>) {
    match kind {
        ControlKind::Button => ("variant"@, "primary"@),
        ControlKind::Label => ("role"@, "heading"@),
        ControlKind::TextBox => ("placeholder"@, "Type here"@),
        ControlKind::CheckBox => ("checked"@, "false"@),
        ControlKind::Panel => ("padding"@, "16"@),
        ControlKind::ListBox => ("items"@, "One,Two,Three"@),
        ControlKind::Canvas => ("surface"@, "software"@),
        ControlKind::Menu => ("items"@, "File,Edit,View"@),
        ControlKind::Toolbar => ("dock"@, "top"@),
    }
}

/// The properties `Ui2Control::new` gives a control of each kind.
pub fn default_properties(kind: ControlKind) -> (v: Vec<Property>)
    ensures
        properties_view(v@) == seq![starter_property(kind)],
{
    let p = match kind {
        ControlKind::Button => property("variant", "primary"),
        ControlKind::Label => property("role", "heading"),
        ControlKind::TextBox => property("placeholder", "Type here"),
        ControlKind::CheckBox => property("checked", "false"),
        ControlKind::Panel => property("padding", "16"),
        ControlKind::ListBox => property("items", "One,Two,Three"),
        ControlKind::Canvas => property("surface", "software"),
        ControlKind::Menu => property("items", "File,Edit,View"),
        ControlKind::Toolbar => property("dock", "top"),
    };
    let v = vec![p];
    proof {
        assert(properties_view(v@) =~= seq![starter_property(kind)]);
    }
    v
}

/// A control as `Ui2Control::new` builds it: the given kind, name, caption
/// and geometry, the kind's starter property, and one binding of the kind's
/// default event to its generated handler.
pub open spec fn is_new_control(
    c: Ui2Control,
    kind: ControlKind,
    name: Seq<char>,
    caption: Seq<char>,
    geometry: Rect,
) -> bool {
    &&& c.kind == kind
    &&& c.name@ == name
    &&& c.caption@ == caption
    &&& c.geometry == geometry
    &&& properties_view(c.properties@) == seq![starter_property(kind)]
    &&& events_view(c.events@) == seq![
        (default_event(kind), spec_handler_name(name, default_event(kind))),
    ]
}

impl Ui2Control {
    pub fn new(kind: ControlKind, name: &str, caption: &str, x: i32, y: i32, w: u32, h: u32) -> (c:
        Self)
        ensures
            is_new_control(c, kind, name@, caption@, Rect { x, y, w, h }),
    {
        let event_name = default_event_name(kind);
        let handler = event_handler_name(name, event_name);
        let events = vec![EventBinding { event: text::owned(event_name), handler }];
        proof {
            assert(events_view(events@) =~= seq![
                (default_event(kind), spec_handler_name(name@, default_event(kind))),
            ]);
        }
        Self {
            id: new_id(),
            kind,
            name: text::owned(name),
            caption: text::owned(caption),
            geometry: Rect { x, y, w, h },
            properties: default_properties(kind),
            events,
        }
    }
}

/// A window with no controls, default decorations, options and HTML/CSS.
pub open spec fn is_plain_window(w: Ui2Window, name: Seq<char>, caption: Seq<char>, geometry: Rect) -> bool {
    &&& w.name@ == name
    &&& w.caption@ == caption
    &&& w.title_twemoji is None
    &&& w.geometry == geometry
    &&& w.decorations == default_decorations()
    &&& w.options == ui2_options::default_window_options()
    &&& w.ui_description.html@ == ui2_options::default_description_html()
    &&& w.ui_description.css@ == ui2_options::default_description_css()
}

/// The main window of a starter: at (80, 80), 720x460, with a `titleLabel`
/// label and a `runButton` button.
pub open spec fn is_main_window(w: Ui2Window, caption: Seq<char>) -> bool {
    &&& is_plain_window(w, "MainWindow"@, caption, Rect { x: 80, y: 80, w: 720, h: 460 })
    &&& w.controls@.len() == 2
    &&& is_new_control(
        w.controls@[0],
        ControlKind::Label,
        "titleLabel"@,
        "TRUEOS UI2 app"@,
        Rect { x: 32, y: 34, w: 220, h: 28 },
    )
    &&& is_new_control(
        w.controls@[1],
        ControlKind::Button,
        "runButton"@,
        "Click me"@,
        Rect { x: 32, y: 86, w: 128, h: 38 },
    )
}

impl Ui2Window {
    pub fn main_window(app_name: &str) -> (w: Self)
        ensures
            is_main_window(w, app_name@),
    {
        let label = Ui2Control::new(ControlKind::Label, "titleLabel", "TRUEOS UI2 app", 32, 34, 220, 28);
        let button = Ui2Control::new(ControlKind::Button, "runButton", "Click me", 32, 86, 128, 38);
        Self {
            id: new_id(),
            name: text::owned("MainWindow"),
            caption: text::owned(app_name),
            title_twemoji: None,
            geometry: Rect { x: 80, y: 80, w: 720, h: 460 },
            decorations: WindowDecorations::default(),
            options: Ui2WindowOptions::default(),
            ui_description: Ui2HtmlCssDescription::default(),
            controls: vec![label, button],
        }
    }

    pub fn named_window(name: &str, caption: &str, x: i32, y: i32, w: u32, h: u32) -> (win: Self)
        ensures
            is_plain_window(win, name@, caption@, Rect { x, y, w, h }),
            win.controls@.len() == 0,
    {
        Self {
            id: new_id(),
            name: text::owned(name),
            caption: text::owned(caption),
            title_twemoji: None,
            geometry: Rect { x, y, w, h },
            decorations: WindowDecorations::default(),
            options: Ui2WindowOptions::default(),
            ui_description: Ui2HtmlCssDescription::default(),
            controls: Vec::new(),
        }
    }
}


// ---------------------------------------------------------------------------
// Projects
// ---------------------------------------------------------------------------

pub open spec fn is_metadata(m: BlueprintMetadata, runtime: Seq<char>) -> bool {
    &&& m.generator@ == "trueos-rads"@
    &&& m.generator_version@ == GENERATOR_VERSION@
    &&& m.ui_runtime@ == runtime
    &&& m.schema_version@ == "0.1"@
}

pub open spec fn capability_view(c: Capability) -> (Seq<char>, bool, Seq<char>) {
    (c.key@, c.enabled, c.note@)
}

pub open spec fn capabilities_view(v: Seq<Capability>) -> Seq<(Seq<char>, bool, Seq<char>)> {
    v.map_values(|c: Capability| capability_view(c))
}

pub open spec fn artifact_view(a: PackageArtifact) -> (Seq<char>, Seq<char>, Seq<char>) {
    (a.kind@, a.path@, a.target@)
}

pub open spec fn artifacts_view(v: Seq<PackageArtifact>) -> Seq<(Seq<char>, Seq<char>, Seq<char>)> {
    v.map_values(|a: PackageArtifact| artifact_view(a))
}

pub open spec fn app_id_for(slug: Seq<char>) -> Seq<char> {
    "dev.trueos."@ + slug
}

pub open spec fn package_id_for(slug: Seq<char>) -> Seq<char> {
    app_id_for(slug) + ".package"@
}

/// The capabilities of a starter: UI2 windows and events enabled, user files
/// and outbound network present but disabled.
pub open spec fn starter_capabilities() -> Seq<(Seq<char>, bool, Seq<char>)> {
    seq![
        ("ui2.window"@, true, "Create and manage UI2 windows"@),
        ("ui2.events"@, true, "Bind generated UI2 event handlers"@),
        ("fs.user"@, false, "Read and write user-selected files"@),
        ("net.client"@, false, "Open outbound network connections"@),
    ]
}

/// Identity fields every generated app blueprint shares.
pub open spec fn is_app_identity(b: AppBlueprint, display: Seq<char>, slug: Seq<char>) -> bool {
    &&& b.schema@ == "trueos.app.blueprint/v1"@
    &&& b.app_id@ == app_id_for(slug)
    &&& b.slug@ == slug
    &&& b.display_name@ == display
    &&& b.version@ == "0.1.0"@
    &&& b.entrypoint@ == "src/main.rs"@
    &&& b.license@ == "MIT OR Apache-2.0"@
    &&& text::strings_view(b.authors@) == seq!["TRUEOS RADS"@]
}

/// Identity fields every generated package blueprint shares.
pub open spec fn is_package_identity(p: PackageBlueprint, slug: Seq<char>) -> bool {
    &&& p.schema@ == "trueos.package.blueprint/v1"@
    &&& p.package_id@ == package_id_for(slug)
    &&& p.app_id@ == app_id_for(slug)
    &&& p.name@ == slug
    &&& p.version@ == "0.1.0"@
    &&& p.entrypoint@ == "src/main.rs"@
}

/// The project `RadsProject::from_valid_name` builds.
pub open spec fn is_starter_project(p: RadsProject, display: Seq<char>, slug: Seq<char>, root: Seq<char>) -> bool {
    &&& p.name@ == display
    &&& p.slug@ == slug
    &&& p.root@ == root
    &&& p.app_kind == AppKind::Ui2
    &&& is_app_identity(p.blueprint, display, slug)
    &&& p.blueprint.ui_layout@ == "ui/main.ui2"@
    &&& p.blueprint.description@ == display + " generated with TRUEOS RADS."@
    &&& capabilities_view(p.blueprint.capabilities@) == starter_capabilities()
    &&& is_metadata(p.blueprint.metadata, "TRUEOS/UI2"@)
    &&& is_package_identity(p.package, slug)
    &&& artifacts_view(p.package.artifacts@) == seq![
        ("binary"@, "target/trueos/app.tapp"@, "trueos-ui2"@),
        ("layout"@, "ui/main.ui2"@, "ui2-layout"@),
    ]
    &&& is_metadata(p.package.metadata, "TRUEOS/UI2"@)
    &&& p.windows@.len() == 1
    &&& is_plain_window(p.windows@[0], "MainWindow"@, display, Rect { x: 80, y: 80, w: 720, h: 460 })
    &&& p.windows@[0].controls@.len() == 3
    &&& is_new_control(
        p.windows@[0].controls@[0],
        ControlKind::Label,
        "titleLabel"@,
        "TRUEOS UI2 app"@,
        Rect { x: 32, y: 34, w: 220, h: 28 },
    )
    &&& is_new_control(
        p.windows@[0].controls@[1],
        ControlKind::Button,
        "runButton"@,
        "Click me"@,
        Rect { x: 32, y: 86, w: 128, h: 38 },
    )
    &&& is_new_control(
        p.windows@[0].controls@[2],
        ControlKind::TextBox,
        "inputText"@,
        "Type here"@,
        Rect { x: 32, y: 144, w: 260, h: 34 },
    )
}

/// Blueprint metadata for the given runtime.
pub fn metadata_for(runtime: &str) -> (m: BlueprintMetadata)
    ensures
        is_metadata(m, runtime@),
{
    BlueprintMetadata {
        generator: text::owned("trueos-rads"),
        generator_version: text::owned(GENERATOR_VERSION),
        ui_runtime: text::owned(runtime),
        schema_version: text::owned("0.1"),
    }
}

impl BlueprintMetadata {
    pub fn duplicate(&self) -> (m: BlueprintMetadata)
        ensures
            m.generator@ == self.generator@,
            m.generator_version@ == self.generator_version@,
            m.ui_runtime@ == self.ui_runtime@,
            m.schema_version@ == self.schema_version@,
    {
        BlueprintMetadata {
            generator: self.generator.clone(),
            generator_version: self.generator_version.clone(),
            ui_runtime: self.ui_runtime.clone(),
            schema_version: self.schema_version.clone(),
        }
    }
}

pub fn capability(key: &str, enabled: bool, note: &str) -> (c: Capability)
    ensures
        capability_view(c) == (key@, enabled, note@),
{
    Capability { key: text::owned(key), enabled, note: text::owned(note) }
}

pub fn artifact(kind: &str, path: &str, target: &str) -> (a: PackageArtifact)
    ensures
        artifact_view(a) == (kind@, path@, target@),
{
    PackageArtifact { kind: text::owned(kind), path: text::owned(path), target: text::owned(target) }
}

/// `dev.trueos.<slug>`.
pub fn app_id_of(slug: &str) -> (s: String)
    ensures
        s@ == app_id_for(slug@),
{
    let mut s = text::owned("dev.trueos.");
    text::push_str(&mut s, slug);
    s
}

/// `dev.trueos.<slug>.package`.
pub fn package_id_of(slug: &str) -> (s: String)
    ensures
        s@ == package_id_for(slug@),
{
    let mut s = app_id_of(slug);
    text::push_str(&mut s, ".package");
    s
}

impl RadsProject {
    /// A starter project for a name that `validate_project_name` accepts.
    pub fn starter(name: &str, root: &str) -> (p: Self)
        requires
            spec_validate_project_name(name@) is Ok,
        ensures
            is_starter_project(
                p,
                spec_validate_project_name(name@)->Ok_0.0,
                spec_validate_project_name(name@)->Ok_0.1,
                root@,
            ),
    {
        match validate_project_name(name) {
            Ok(validated) => Self::from_valid_name(validated, root),
            Err(_) => {
                proof {
                    assert(false);
                }
                Self::from_valid_name(ValidProjectName { display: String::new(), slug: String::new() }, root)
            },
        }
    }

    pub fn from_valid_name(name: ValidProjectName, root: &str) -> (p: Self)
        ensures
            is_starter_project(p, name.display@, name.slug@, root@),
    {
        let app_id = app_id_of(name.slug.as_str());
        let package_id = package_id_of(name.slug.as_str());
        let mut main_window = Ui2Window::main_window(name.display.as_str());
        let input = Ui2Control::new(ControlKind::TextBox, "inputText", "Type here", 32, 144, 260, 34);
        main_window.controls.push(input);
        let mut description = name.display.clone();
        text::push_str(&mut description, " generated with TRUEOS RADS.");
        let capabilities = vec![
            capability("ui2.window", true, "Create and manage UI2 windows"),
            capability("ui2.events", true, "Bind generated UI2 event handlers"),
            capability("fs.user", false, "Read and write user-selected files"),
            capability("net.client", false, "Open outbound network connections"),
        ];
        proof {
            assert(capabilities_view(capabilities@) =~= starter_capabilities());
        }
        let artifacts = vec![
            artifact("binary", "target/trueos/app.tapp", "trueos-ui2"),
            artifact("layout", "ui/main.ui2", "ui2-layout"),
        ];
        proof {
            assert(artifacts_view(artifacts@) =~= seq![
                ("binary"@, "target/trueos/app.tapp"@, "trueos-ui2"@),
                ("layout"@, "ui/main.ui2"@, "ui2-layout"@),
            ]);
        }
        let authors = vec![text::owned("TRUEOS RADS")];
        proof {
            assert(text::strings_view(authors@) =~= seq!["TRUEOS RADS"@]);
        }
        let runtime = AppKind::Ui2.runtime();
        let blueprint = AppBlueprint {
            schema: text::owned("trueos.app.blueprint/v1"),
            app_id: app_id.clone(),
            slug: name.slug.clone(),
            display_name: name.display.clone(),
            version: text::owned("0.1.0"),
            entrypoint: text::owned("src/main.rs"),
            ui_layout: text::owned("ui/main.ui2"),
            description,
            license: text::owned("MIT OR Apache-2.0"),
            authors,
            capabilities,
            metadata: metadata_for(runtime),
        };
        let package = PackageBlueprint {
            schema: text::owned("trueos.package.blueprint/v1"),
            package_id,
            app_id,
            name: name.slug.clone(),
            version: text::owned("0.1.0"),
            entrypoint: text::owned("src/main.rs"),
            artifacts,
            metadata: metadata_for(runtime),
        };
        let windows = vec![main_window];
        Self {
            id: new_id(),
            name: name.display,
            slug: name.slug,
            root: text::owned(root),
            app_kind: AppKind::Ui2,
            blueprint,
            package,
            windows,
        }
    }
}

} // verus!
