//! Generated project text: the readable UI2 layout, the Rust sources, the
//! Cargo manifest, the README and the window markup of a project.

use vstd::prelude::*;
use crate::text;
use crate::model::{self, AppKind, ControlKind, RadsProject, Ui2Control, Ui2Window};
use crate::project_templates::{self, ProjectTemplate};
use crate::ui2_options;

verus! {

// ---------------------------------------------------------------------------
// Escaping
// ---------------------------------------------------------------------------

/// The escape of one character inside a Rust or TOML string literal.
pub open spec fn quote_escape_char(c: char) -> Seq<char> {
    if c == '\\' {
        "\\\\"@
    } else if c == '"' {
        "\\\""@
    } else if c == '\n' {
        "\\n"@
    } else if c == '\r' {
        "\\r"@
    } else {
        seq![c]
    }
}

/// `s` made safe inside a double-quoted Rust or TOML literal: backslash,
/// quote, newline and carriage return escaped with a backslash.
pub open spec fn quote_escaped(s: Seq<char>) -> Seq<char>
    decreases s.len(),
{
    if s.len() == 0 {
        Seq::empty()
    } else {
        quote_escaped(s.drop_last()) + quote_escape_char(s.last())
    }
}

/// The escape of one character in HTML text.
pub open spec fn html_text_escape_char(c: char) -> Seq<char> {
    if c == '&' {
        "&amp;"@
    } else if c == '<' {
        "&lt;"@
    } else if c == '>' {
        "&gt;"@
    } else if c == '"' {
        "&quot;"@
    } else if c == '\'' {
        "&#39;"@
    } else {
        seq![c]
    }
}

/// `s` with `&`, `<`, `>`, `"` and `'` written as HTML entities.
pub open spec fn html_text_escaped(s: Seq<char>) -> Seq<char>
    decreases s.len(),
{
    if s.len() == 0 {
        Seq::empty()
    } else {
        html_text_escaped(s.drop_last()) + html_text_escape_char(s.last())
    }
}

fn push_quote_escaped(out: &mut String, input: &str)
    ensures
        final(out)@ == old(out)@ + quote_escaped(input@),
{
    let chars = text::chars_of(input);
    let ghost start = out@;
    let mut i: usize = 0;
    while i < chars.len()
        invariant
            i <= chars.len(),
            chars@ == input@,
            out@ == start + quote_escaped(chars@.take(i as int)),
        decreases chars.len() - i,
    {
        let c = chars[i];
        proof {
            assert(chars@.take(i + 1).drop_last() =~= chars@.take(i as int));
        }
        if c == '\\' {
            text::push_str(out, "\\\\");
        } else if c == '"' {
            text::push_str(out, "\\\"");
        } else if c == '\n' {
            text::push_str(out, "\\n");
        } else if c == '\r' {
            text::push_str(out, "\\r");
        } else {
            text::push_char(out, c);
        }
        i += 1;
    }
    proof {
        assert(chars@.take(i as int) =~= chars@);
    }
}

/// Escapes a string for a Rust string literal.
fn escape_rust_string(input: &str) -> (r: String)
    ensures
        r@ == quote_escaped(input@),
{
    let mut r = String::new();
    push_quote_escaped(&mut r, input);
    r
}

/// Escapes a string for a TOML basic string.
fn escape_toml_string(input: &str) -> (r: String)
    ensures
        r@ == quote_escaped(input@),
{
    let mut r = String::new();
    push_quote_escaped(&mut r, input);
    r
}

/// Escapes a string for HTML text and attribute values.
pub fn escape_html(input: &str) -> (r: String)
    ensures
        r@ == html_text_escaped(input@),
{
    let chars = text::chars_of(input);
    let mut out = String::new();
    let mut i: usize = 0;
    while i < chars.len()
        invariant
            i <= chars.len(),
            chars@ == input@,
            out@ == html_text_escaped(chars@.take(i as int)),
        decreases chars.len() - i,
    {
        let c = chars[i];
        proof {
            assert(chars@.take(i + 1).drop_last() =~= chars@.take(i as int));
        }
        if c == '&' {
            text::push_str(&mut out, "&amp;");
        } else if c == '<' {
            text::push_str(&mut out, "&lt;");
        } else if c == '>' {
            text::push_str(&mut out, "&gt;");
        } else if c == '"' {
            text::push_str(&mut out, "&quot;");
        } else if c == '\'' {
            text::push_str(&mut out, "&#39;");
        } else {
            text::push_char(&mut out, c);
        }
        i += 1;
    }
    proof {
        assert(chars@.take(i as int) =~= chars@);
    }
    out
}

/// What `{:?}` writes for a string: the `Debug` form of `str`, the string in
/// double quotes with quotes, backslashes and unprintable characters escaped.
pub uninterp spec fn debug_str(s: Seq<char>) -> Seq<char>;

/// Text whose characters are all printable ASCII other than `"` and `\`:
/// the `Debug` form leaves each of them as it is.
pub open spec fn plain_text(s: Seq<char>) -> bool {
    forall|i: int| 0 <= i < s.len() ==> ' ' <= #[trigger] s[i] && s[i] <= '~' && s[i] != '"' && s[i]
        != '\\'
}

/// The `Debug` form of a string: plain text in double quotes, otherwise
/// `debug_str`.
pub open spec fn debug_text(s: Seq<char>) -> Seq<char> {
    if plain_text(s) {
        seq!['"'] + s + seq!['"']
    } else {
        debug_str(s)
    }
}

/// `format!("{:?}", s)`: the `Debug` form of a string slice. Its result is
/// named `debug_str`; for plain text (printable ASCII without `"` or `\`) it
/// is the text in double quotes, as `char::escape_debug` leaves such
/// characters unchanged. Nothing more is stated of other text.
#[verifier::external_body]
fn debug_quoted(s: &str) -> (r: String)
    ensures
        r@ == debug_str(s@),
        plain_text(s@) ==> r@ == seq!['"'] + s@ + seq!['"'],
{
    format!("{:?}", s)
}

// ---------------------------------------------------------------------------
// The readable UI2 layout
// ---------------------------------------------------------------------------

pub open spec fn control_kind_text(kind: ControlKind) -> Seq<char> {
    match kind {
        ControlKind::Button => "button"@,
        ControlKind::Label => "label"@,
        ControlKind::TextBox => "textbox"@,
        ControlKind::CheckBox => "checkbox"@,
        ControlKind::Panel => "panel"@,
        ControlKind::ListBox => "listbox"@,
        ControlKind::Canvas => "canvas"@,
        ControlKind::Menu => "menu"@,
        ControlKind::Toolbar => "toolbar"@,
    }
}

/// The keyword a control kind has in the readable layout.
pub fn control_kind_name(kind: &ControlKind) -> (s: &'static str)
    ensures
        s@ == control_kind_text(*kind),
{
    match kind {
        ControlKind::Button => "button",
        ControlKind::Label => "label",
        ControlKind::TextBox => "textbox",
        ControlKind::CheckBox => "checkbox",
        ControlKind::Panel => "panel",
        ControlKind::ListBox => "listbox",
        ControlKind::Canvas => "canvas",
        ControlKind::Menu => "menu",
        ControlKind::Toolbar => "toolbar",
    }
}

/// `key=value` entries of a control's properties, each value already quoted.
pub open spec fn property_entries(props: Seq<model::Property>, quoted: Seq<Seq<char>>) -> Seq<
    Seq<char>,
> {
    Seq::new(props.len(), |i: int| props[i].key@ + "="@ + quoted[i])
}

pub open spec fn event_entry(e: model::EventBinding) -> Seq<char> {
    e.event@ + " -> "@ + e.handler@
}

/// `event -> handler` entries of a control's events.
pub open spec fn event_entries(events: Seq<model::EventBinding>) -> Seq<Seq<char>> {
    events.map_values(|e: model::EventBinding| event_entry(e))
}

/// The quoted values of a control's properties.
pub open spec fn quoted_values(props: Seq<model::Property>) -> Seq<Seq<char>> {
    props.map_values(|p: model::Property| debug_text(p.value@))
}

/// A control's layout line, given its quoted caption and property values.
pub open spec fn control_line(c: Ui2Control, caption: Seq<char>, values: Seq<Seq<char>>) -> Seq<char> {
    control_kind_text(c.kind) + " "@ + c.name@ + " at "@ + text::int_decimal(c.geometry.x as int)
        + ","@ + text::int_decimal(c.geometry.y as int) + " size "@ + text::nat_decimal(
        c.geometry.w as nat,
    ) + "x"@ + text::nat_decimal(c.geometry.h as nat) + " caption "@ + caption + " props ["@
        + text::join_seqs(property_entries(c.properties@, values), ", "@) + "] events ["@
        + text::join_seqs(event_entries(c.events@), ", "@) + "]"@
}

/// A control's line in the readable layout.
pub open spec fn control_snippet(c: Ui2Control) -> Seq<char> {
    control_line(c, debug_text(c.caption@), quoted_values(c.properties@))
}

/// The layout line of a control whose caption and property values were
/// quoted already: kind, name, position and size, caption, `key=value`
/// properties and `event -> handler` bindings.
pub fn control_snippet_with(control: &Ui2Control, caption: &str, values: &Vec<String>) -> (r: String)
    requires
        values@.len() == control.properties@.len(),
    ensures
        r@ == control_line(*control, caption@, text::strings_view(values@)),
{
    let ghost quoted = text::strings_view(values@);
    let ghost props = property_entries(control.properties@, quoted);
    let ghost evs = event_entries(control.events@);
    let mut r = text::owned(control_kind_name(&control.kind));
    text::push_str(&mut r, " ");
    text::push_str(&mut r, control.name.as_str());
    text::push_str(&mut r, " at ");
    text::push_i64(&mut r, control.geometry.x as i64);
    text::push_str(&mut r, ",");
    text::push_i64(&mut r, control.geometry.y as i64);
    text::push_str(&mut r, " size ");
    text::push_u64(&mut r, control.geometry.w as u64);
    text::push_str(&mut r, "x");
    text::push_u64(&mut r, control.geometry.h as u64);
    text::push_str(&mut r, " caption ");
    text::push_str(&mut r, caption);
    text::push_str(&mut r, " props [");
    let ghost head = r@;
    let mut i: usize = 0;
    while i < control.properties.len()
        invariant
            i <= control.properties.len(),
            values@.len() == control.properties@.len(),
            quoted == text::strings_view(values@),
            props == property_entries(control.properties@, quoted),
            r@ == head + text::join_seqs(props.take(i as int), ", "@),
        decreases control.properties.len() - i,
    {
        proof {
            text::lemma_join_take(props, ", "@, i as int);
        }
        if i > 0 {
            text::push_str(&mut r, ", ");
        }
        text::push_str(&mut r, control.properties[i].key.as_str());
        text::push_str(&mut r, "=");
        text::push_str(&mut r, values[i].as_str());
        proof {
            assert(r@ =~= head + text::join_seqs(props.take(i + 1), ", "@));
        }
        i += 1;
    }
    proof {
        assert(props.take(i as int) =~= props);
    }
    text::push_str(&mut r, "] events [");
    let ghost mid = r@;
    let mut j: usize = 0;
    while j < control.events.len()
        invariant
            j <= control.events.len(),
            evs == event_entries(control.events@),
            r@ == mid + text::join_seqs(evs.take(j as int), ", "@),
        decreases control.events.len() - j,
    {
        proof {
            text::lemma_join_take(evs, ", "@, j as int);
        }
        if j > 0 {
            text::push_str(&mut r, ", ");
        }
        text::push_str(&mut r, control.events[j].event.as_str());
        text::push_str(&mut r, " -> ");
        text::push_str(&mut r, control.events[j].handler.as_str());
        proof {
            assert(r@ =~= mid + text::join_seqs(evs.take(j + 1), ", "@));
        }
        j += 1;
    }
    proof {
        assert(evs.take(j as int) =~= evs);
    }
    text::push_str(&mut r, "]");
    proof {
        assert(r@ =~= control_line(*control, caption@, quoted));
    }
    r
}

/// A control's line in the readable layout.
pub fn control_to_ui2_snippet(control: &Ui2Control) -> (r: String)
    ensures
        r@ == control_snippet(*control),
{
    let caption = debug_quoted(control.caption.as_str());
    let mut values: Vec<String> = Vec::new();
    let mut i: usize = 0;
    while i < control.properties.len()
        invariant
            i <= control.properties.len(),
            values@.len() == i,
            forall|j: int|
                0 <= j < i ==> #[trigger] values@[j]@ == debug_text(control.properties@[j].value@),
        decreases control.properties.len() - i,
    {
        values.push(debug_quoted(control.properties[i].value.as_str()));
        i += 1;
    }
    proof {
        assert(text::strings_view(values@) =~= quoted_values(control.properties@));
    }
    control_snippet_with(control, caption.as_str(), &values)
}


pub open spec fn vertical_side_text(s: ui2_options::Ui2VerticalScrollbarSide) -> Seq<char> {
    match s {
        ui2_options::Ui2VerticalScrollbarSide::Left => "left"@,
        ui2_options::Ui2VerticalScrollbarSide::Right => "right"@,
    }
}

pub open spec fn horizontal_side_text(s: ui2_options::Ui2HorizontalScrollbarSide) -> Seq<char> {
    match s {
        ui2_options::Ui2HorizontalScrollbarSide::Top => "top"@,
        ui2_options::Ui2HorizontalScrollbarSide::Bottom => "bottom"@,
    }
}

/// Each line indented by two spaces and ended by a newline.
pub open spec fn indented_lines(lines: Seq<Seq<char>>) -> Seq<char>
    decreases lines.len(),
{
    if lines.len() == 0 {
        Seq::empty()
    } else {
        indented_lines(lines.drop_last()) + "  "@ + lines.last() + "\n"@
    }
}

/// The `window-options` line of a window.
pub open spec fn window_options_line(o: ui2_options::Ui2WindowOptions) -> Seq<char> {
    "  window-options { resize_mode: "@ + ui2_options::resize_mode_text(o.resize_mode)
        + ", scrollbars: "@ + ui2_options::scrollbar_mode_text(o.scrollbars)
        + ", vertical_scrollbar_side: "@ + vertical_side_text(o.vertical_scrollbar_side)
        + ", horizontal_scrollbar_side: "@ + horizontal_side_text(o.horizontal_scrollbar_side)
        + ", preserve_scale: "@ + text::bool_text(o.preserve_scale) + " }\n"@
}

/// A window's block in the readable layout, given its quoted caption, its
/// quoted title icon (if it shows one) and the lines of its controls.
pub open spec fn window_block(
    w: Ui2Window,
    caption: Seq<char>,
    icon: Option<Seq<char>>,
    lines: Seq<Seq<char>>,
) -> Seq<char> {
    "window "@ + w.name@ + " caption "@ + caption + " at "@ + text::int_decimal(w.geometry.x as int)
        + ","@ + text::int_decimal(w.geometry.y as int) + " size "@ + text::nat_decimal(
        w.geometry.w as nat,
    ) + "x"@ + text::nat_decimal(w.geometry.h as nat) + " {\n"@ + "  decorations "@
        + model::decorations_literal(w.decorations) + "\n"@ + window_options_line(w.options)
        + match icon {
        Some(q) => "  title-twemoji "@ + q + "\n"@,
        None => Seq::<char>::empty(),
    } + "  decoration-flags ["@ + text::join_seqs(model::decoration_flags(w.decorations), ", "@)
        + "]\n"@ + "  layout absolute grid 8\n"@ + indented_lines(lines) + "}\n"@
}

/// The quoted title icon a window shows in the layout: only a non-empty one.
pub open spec fn quoted_icon(icon: Option<String>) -> Option<Seq<char>> {
    match icon {
        Some(s) => if s@.len() > 0 {
            Some(debug_text(s@))
        } else {
            None
        },
        None => None,
    }
}

pub open spec fn control_snippets(cs: Seq<Ui2Control>) -> Seq<Seq<char>> {
    cs.map_values(|c: Ui2Control| control_snippet(c))
}

/// A window's block in the readable layout.
pub open spec fn window_snippet(w: Ui2Window) -> Seq<char> {
    window_block(w, debug_text(w.caption@), quoted_icon(w.title_twemoji), control_snippets(w.controls@))
}

fn push_indented_lines(out: &mut String, lines: &Vec<String>)
    ensures
        final(out)@ == old(out)@ + indented_lines(text::strings_view(lines@)),
{
    let ghost start = out@;
    let ghost ls = text::strings_view(lines@);
    let mut i: usize = 0;
    while i < lines.len()
        invariant
            i <= lines.len(),
            ls == text::strings_view(lines@),
            out@ == start + indented_lines(ls.take(i as int)),
        decreases lines.len() - i,
    {
        proof {
            assert(ls.take(i + 1).drop_last() =~= ls.take(i as int));
        }
        text::push_str(out, "  ");
        text::push_str(out, lines[i].as_str());
        text::push_str(out, "\n");
        proof {
            assert(out@ =~= start + indented_lines(ls.take(i + 1)));
        }
        i += 1;
    }
    proof {
        assert(ls.take(i as int) =~= ls);
    }
}

fn push_window_options_line(out: &mut String, o: &ui2_options::Ui2WindowOptions)
    ensures
        final(out)@ == old(out)@ + window_options_line(*o),
{
    let ghost start = out@;
    text::push_str(out, "  window-options { resize_mode: ");
    text::push_str(out, o.resize_mode.as_str());
    text::push_str(out, ", scrollbars: ");
    text::push_str(out, o.scrollbars.as_str());
    text::push_str(out, ", vertical_scrollbar_side: ");
    text::push_str(out, o.vertical_scrollbar_side.as_str());
    text::push_str(out, ", horizontal_scrollbar_side: ");
    text::push_str(out, o.horizontal_scrollbar_side.as_str());
    text::push_str(out, ", preserve_scale: ");
    text::push_bool(out, o.preserve_scale);
    text::push_str(out, " }\n");
    proof {
        assert(out@ =~= start + window_options_line(*o));
    }
}

/// A window's block in the readable layout, given its quoted caption, its
/// quoted title icon and its control lines: header, decorations, options,
/// icon, decoration flags, grid and one indented line per control.
pub fn window_snippet_with(
    window: &Ui2Window,
    caption: &str,
    icon: &Option<String>,
    lines: &Vec<String>,
) -> (r: String)
    ensures
        r@ == window_block(
            *window,
            caption@,
            match icon {
                Some(s) => Some(s@),
                None => None,
            },
            text::strings_view(lines@),
        ),
{
    let mut r = text::owned("window ");
    text::push_str(&mut r, window.name.as_str());
    text::push_str(&mut r, " caption ");
    text::push_str(&mut r, caption);
    text::push_str(&mut r, " at ");
    text::push_i64(&mut r, window.geometry.x as i64);
    text::push_str(&mut r, ",");
    text::push_i64(&mut r, window.geometry.y as i64);
    text::push_str(&mut r, " size ");
    text::push_u64(&mut r, window.geometry.w as u64);
    text::push_str(&mut r, "x");
    text::push_u64(&mut r, window.geometry.h as u64);
    text::push_str(&mut r, " {\n");
    text::push_str(&mut r, "  decorations ");
    let literal = window.decorations.to_ui2_literal();
    text::push_str(&mut r, literal.as_str());
    text::push_str(&mut r, "\n");
    push_window_options_line(&mut r, &window.options);
    let ghost before_icon = r@;
    match icon {
        Some(q) => {
            text::push_str(&mut r, "  title-twemoji ");
            text::push_str(&mut r, q.as_str());
            text::push_str(&mut r, "\n");
        },
        None => {},
    }
    text::push_str(&mut r, "  decoration-flags [");
    let flags = model::joined_flags(&window.decorations);
    text::push_str(&mut r, flags.as_str());
    text::push_str(&mut r, "]\n");
    text::push_str(&mut r, "  layout absolute grid 8\n");
    push_indented_lines(&mut r, lines);
    text::push_str(&mut r, "}\n");
    proof {
        let icon_view = match icon {
            Some(s) => Some(s@),
            None => None,
        };
        assert(r@ =~= window_block(*window, caption@, icon_view, text::strings_view(lines@)));
    }
    r
}

/// A window's block in the readable layout.
pub fn window_to_ui2_snippet(window: &Ui2Window) -> (r: String)
    ensures
        r@ == window_snippet(*window),
{
    let caption = debug_quoted(window.caption.as_str());
    let icon: Option<String> = match &window.title_twemoji {
        Some(s) => if s.as_str().is_empty() {
            None
        } else {
            Some(debug_quoted(s.as_str()))
        },
        None => None,
    };
    let mut lines: Vec<String> = Vec::new();
    let mut i: usize = 0;
    while i < window.controls.len()
        invariant
            i <= window.controls.len(),
            lines@.len() == i,
            forall|j: int|
                0 <= j < i ==> #[trigger] lines@[j]@ == control_snippet(window.controls@[j]),
        decreases window.controls.len() - i,
    {
        lines.push(control_to_ui2_snippet(&window.controls[i]));
        i += 1;
    }
    proof {
        assert(text::strings_view(lines@) =~= control_snippets(window.controls@));
    }
    window_snippet_with(window, caption.as_str(), &icon, &lines)
}

/// Each window block preceded by an empty line.
pub open spec fn window_blocks(blocks: Seq<Seq<char>>) -> Seq<char>
    decreases blocks.len(),
{
    if blocks.len() == 0 {
        Seq::empty()
    } else {
        window_blocks(blocks.drop_last()) + "\n"@ + blocks.last()
    }
}

/// The readable layout given the quoted display name, app id and version and
/// the window blocks.
pub open spec fn layout_text(
    name: Seq<char>,
    app_id: Seq<char>,
    version: Seq<char>,
    blocks: Seq<Seq<char>>,
) -> Seq<char> {
    "app "@ + name + " id "@ + app_id + " version "@ + version + "\n"@ + window_blocks(blocks)
}

pub open spec fn window_snippets(ws: Seq<Ui2Window>) -> Seq<Seq<char>> {
    ws.map_values(|w: Ui2Window| window_snippet(w))
}

/// The readable UI2 layout of a project.
pub open spec fn project_layout(p: RadsProject) -> Seq<char> {
    layout_text(
        debug_text(p.blueprint.display_name@),
        debug_text(p.blueprint.app_id@),
        debug_text(p.blueprint.version@),
        window_snippets(p.windows@),
    )
}

/// The readable layout from its quoted header values and window blocks: the
/// `app` line, then each block after an empty line.
pub fn ui2_layout_with(name: &str, app_id: &str, version: &str, blocks: &Vec<String>) -> (r: String)
    ensures
        r@ == layout_text(name@, app_id@, version@, text::strings_view(blocks@)),
{
    let mut r = text::owned("app ");
    text::push_str(&mut r, name);
    text::push_str(&mut r, " id ");
    text::push_str(&mut r, app_id);
    text::push_str(&mut r, " version ");
    text::push_str(&mut r, version);
    text::push_str(&mut r, "\n");
    let ghost head = r@;
    let ghost bs = text::strings_view(blocks@);
    let mut i: usize = 0;
    while i < blocks.len()
        invariant
            i <= blocks.len(),
            bs == text::strings_view(blocks@),
            r@ == head + window_blocks(bs.take(i as int)),
        decreases blocks.len() - i,
    {
        proof {
            assert(bs.take(i + 1).drop_last() =~= bs.take(i as int));
        }
        text::push_str(&mut r, "\n");
        text::push_str(&mut r, blocks[i].as_str());
        proof {
            assert(r@ =~= head + window_blocks(bs.take(i + 1)));
        }
        i += 1;
    }
    proof {
        assert(bs.take(i as int) =~= bs);
    }
    r
}

/// The readable UI2 layout of a project: its `app` line and one block per
/// window.
pub fn ui2_layout(project: &RadsProject) -> (r: String)
    ensures
        r@ == project_layout(*project),
{
    let name = debug_quoted(project.blueprint.display_name.as_str());
    let app_id = debug_quoted(project.blueprint.app_id.as_str());
    let version = debug_quoted(project.blueprint.version.as_str());
    let mut blocks: Vec<String> = Vec::new();
    let mut i: usize = 0;
    while i < project.windows.len()
        invariant
            i <= project.windows.len(),
            blocks@.len() == i,
            forall|j: int|
                0 <= j < i ==> #[trigger] blocks@[j]@ == window_snippet(project.windows@[j]),
        decreases project.windows.len() - i,
    {
        blocks.push(window_to_ui2_snippet(&project.windows[i]));
        i += 1;
    }
    proof {
        assert(text::strings_view(blocks@) =~= window_snippets(project.windows@));
    }
    ui2_layout_with(name.as_str(), app_id.as_str(), version.as_str(), &blocks)
}


// ---------------------------------------------------------------------------
// Generated Rust: `src/ui.rs`
// ---------------------------------------------------------------------------

/// The file stem of a window's files: `main` for the first window, else the
/// slug of its name, or `window-<n>` (counting from one) when that is empty.
pub open spec fn file_stem_text(name: Seq<char>, index: nat) -> Seq<char> {
    if index == 0 {
        "main"@
    } else if model::spec_slugify(name).len() == 0 {
        "window-"@ + text::nat_decimal(index + 1)
    } else {
        model::spec_slugify(name)
    }
}

/// The file stem of the window at `index`.
pub fn window_file_stem(window: &Ui2Window, index: usize) -> (r: String)
    ensures
        r@ == file_stem_text(window.name@, index as nat),
{
    if index == 0 {
        return text::owned("main");
    }
    let stem = model::slugify(window.name.as_str());
    if stem.as_str().is_empty() {
        let mut r = text::owned("window-");
        text::push_u128(&mut r, index as u128 + 1);
        r
    } else {
        stem
    }
}

pub open spec fn decoration_variant(m: model::WindowDecorationMode) -> Seq<char> {
    match m {
        model::WindowDecorationMode::System => "System"@,
        model::WindowDecorationMode::Custom => "Custom"@,
    }
}

pub open spec fn vertical_side_variant(s: ui2_options::Ui2VerticalScrollbarSide) -> Seq<char> {
    match s {
        ui2_options::Ui2VerticalScrollbarSide::Left => "Left"@,
        ui2_options::Ui2VerticalScrollbarSide::Right => "Right"@,
    }
}

pub open spec fn horizontal_side_variant(s: ui2_options::Ui2HorizontalScrollbarSide) -> Seq<char> {
    match s {
        ui2_options::Ui2HorizontalScrollbarSide::Top => "Top"@,
        ui2_options::Ui2HorizontalScrollbarSide::Bottom => "Bottom"@,
    }
}

pub open spec fn scrollbar_vertical(m: ui2_options::Ui2ScrollbarMode) -> bool {
    m == ui2_options::Ui2ScrollbarMode::Vertical || m == ui2_options::Ui2ScrollbarMode::Both
        || m == ui2_options::Ui2ScrollbarMode::Auto
}

pub open spec fn scrollbar_horizontal(m: ui2_options::Ui2ScrollbarMode) -> bool {
    m == ui2_options::Ui2ScrollbarMode::Horizontal || m == ui2_options::Ui2ScrollbarMode::Both
        || m == ui2_options::Ui2ScrollbarMode::Auto
}

/// The first half of the decoration options literal: mode, bars, icon and
/// buttons.
pub open spec fn decoration_buttons_text(d: model::WindowDecorations) -> Seq<char> {
    "vui2::WindowDecorationOptions {\n            mode: vui2::WindowDecorationMode::"@
        + decoration_variant(d.mode)
        + ",\n            titlebar_visible: "@
        + text::bool_text(d.titlebar)
        + ",\n            bottom_bar_visible: "@
        + text::bool_text(d.bottom_bar)
        + ",\n            title_icon_visible: "@
        + text::bool_text(d.title_icon)
        + ",\n            buttons: vui2::WindowDecorationButtons {\n                toggle_composition: "@
        + text::bool_text(d.toggle_composition)
        + ",\n                fork: "@
        + text::bool_text(d.fork)
        + ",\n                minimize: "@
        + text::bool_text(d.minimize)
        + ",\n                restore: "@
        + text::bool_text(d.restore)
        + ",\n                toggle_maximize: "@
        + text::bool_text(d.maximize)
        + ",\n                preserve_vm: "@
        + text::bool_text(d.preserve_vm)
        + ",\n                close: "@
        + text::bool_text(d.close)
}

/// The second half: resize and rotate buttons, scrollbars and scale.
pub open spec fn decoration_rest_text(
    d: model::WindowDecorations,
    o: ui2_options::Ui2WindowOptions,
) -> Seq<char> {
    ",\n            },\n            resize_button_visible: "@
        + text::bool_text(d.resizable && d.resize_button)
        + ",\n            rotate_buttons_visible: "@
        + text::bool_text(d.rotate_buttons)
        + ",\n            vertical_scrollbar_visible: "@
        + text::bool_text(scrollbar_vertical(o.scrollbars))
        + ",\n            horizontal_scrollbar_visible: "@
        + text::bool_text(scrollbar_horizontal(o.scrollbars))
        + ",\n            vertical_scrollbar_side: vui2::VerticalScrollbarSide::"@
        + vertical_side_variant(o.vertical_scrollbar_side)
        + ",\n            horizontal_scrollbar_side: vui2::HorizontalScrollbarSide::"@
        + horizontal_side_variant(o.horizontal_scrollbar_side)
        + ",\n            resize_mode: vui2::WindowResizeMode::Auto,\n            resize_maintain_aspect: false,\n            content_preserve_scale: "@
        + text::bool_text(o.preserve_scale)
        + ",\n        }"@
}

/// The `vui2::WindowDecorationOptions` literal of a window: its decorations,
/// with the resize button shown only on a resizable window, and its
/// scrollbar and scale options.
pub open spec fn decoration_options_text(w: Ui2Window) -> Seq<char> {
    decoration_buttons_text(w.decorations) + decoration_rest_text(w.decorations, w.options)
}

fn decoration_buttons_string(d: &model::WindowDecorations) -> (out: String)
    ensures
        out@ == decoration_buttons_text(*d),
{
    let mut out = text::owned("vui2::WindowDecorationOptions {\n            mode: vui2::WindowDecorationMode::");
    text::push_str(&mut out, d.mode.vui2_variant());
    text::push_str(&mut out, ",\n            titlebar_visible: ");
    text::push_bool(&mut out, d.titlebar);
    text::push_str(&mut out, ",\n            bottom_bar_visible: ");
    text::push_bool(&mut out, d.bottom_bar);
    text::push_str(&mut out, ",\n            title_icon_visible: ");
    text::push_bool(&mut out, d.title_icon);
    text::push_str(&mut out, ",\n            buttons: vui2::WindowDecorationButtons {\n                toggle_composition: ");
    text::push_bool(&mut out, d.toggle_composition);
    text::push_str(&mut out, ",\n                fork: ");
    text::push_bool(&mut out, d.fork);
    text::push_str(&mut out, ",\n                minimize: ");
    text::push_bool(&mut out, d.minimize);
    text::push_str(&mut out, ",\n                restore: ");
    text::push_bool(&mut out, d.restore);
    text::push_str(&mut out, ",\n                toggle_maximize: ");
    text::push_bool(&mut out, d.maximize);
    text::push_str(&mut out, ",\n                preserve_vm: ");
    text::push_bool(&mut out, d.preserve_vm);
    text::push_str(&mut out, ",\n                close: ");
    text::push_bool(&mut out, d.close);
    out
}

fn decoration_rest_string(d: &model::WindowDecorations, o: &ui2_options::Ui2WindowOptions) -> (out:
    String)
    ensures
        out@ == decoration_rest_text(*d, *o),
{
    let mut out = text::owned(",\n            },\n            resize_button_visible: ");
    text::push_bool(&mut out, d.resizable && d.resize_button);
    text::push_str(&mut out, ",\n            rotate_buttons_visible: ");
    text::push_bool(&mut out, d.rotate_buttons);
    text::push_str(&mut out, ",\n            vertical_scrollbar_visible: ");
    text::push_bool(&mut out, o.scrollbars.vertical_visible());
    text::push_str(&mut out, ",\n            horizontal_scrollbar_visible: ");
    text::push_bool(&mut out, o.scrollbars.horizontal_visible());
    text::push_str(&mut out, ",\n            vertical_scrollbar_side: vui2::VerticalScrollbarSide::");
    text::push_str(&mut out, o.vertical_scrollbar_side.vui2_variant());
    text::push_str(&mut out, ",\n            horizontal_scrollbar_side: vui2::HorizontalScrollbarSide::");
    text::push_str(&mut out, o.horizontal_scrollbar_side.vui2_variant());
    text::push_str(&mut out, ",\n            resize_mode: vui2::WindowResizeMode::Auto,\n            resize_maintain_aspect: false,\n            content_preserve_scale: ");
    text::push_bool(&mut out, o.preserve_scale);
    text::push_str(&mut out, ",\n        }");
    out
}

fn push_decoration_options(out: &mut String, window: &Ui2Window)
    ensures
        final(out)@ == old(out)@ + decoration_options_text(*window),
{
    let ghost start = out@;
    let buttons = decoration_buttons_string(&window.decorations);
    text::push_str(out, buttons.as_str());
    let rest = decoration_rest_string(&window.decorations, &window.options);
    text::push_str(out, rest.as_str());
    proof {
        assert(out@ =~= start + decoration_options_text(*window));
    }
}

fn window_decoration_options_literal(window: &Ui2Window) -> (r: String)
    ensures
        r@ == decoration_options_text(*window),
{
    let mut r = String::new();
    push_decoration_options(&mut r, window);
    r
}

/// The `create_window_<index>` function of generated `src/ui.rs`.
pub open spec fn create_function_text(index: nat, w: Ui2Window) -> Seq<char> {
    "pub fn create_window_"@
        + text::nat_decimal(index)
        + "() -> Option<vui2::OwnedWindow> {\n    let rect = vui2::Rect {\n        x: "@
        + text::int_decimal(w.geometry.x as int)
        + ",\n        y: "@
        + text::int_decimal(w.geometry.y as int)
        + ",\n        width: "@
        + text::nat_decimal(w.geometry.w as nat)
        + ",\n        height: "@
        + text::nat_decimal(w.geometry.h as nat)
        + ",\n    };\n    let options = vui2::CreateOptions {\n        decorations: "@
        + decoration_options_text(w)
        + ",\n        ..vui2::CreateOptions::default()\n    };\n    let window = vui2::OwnedWindow::create_with_options(\""@
        + quote_escaped(w.caption@)
        + "\", rect, options)?;\n    let id = window.id();\n    id.set_title(\""@
        + quote_escaped(w.caption@)
        + "\");\n    Some(window)\n}\n"@
}

fn window_create_function(index: usize, window: &Ui2Window) -> (r: String)
    ensures
        r@ == create_function_text(index as nat, *window),
{
    let mut r = String::new();
    text::push_str(&mut r, "pub fn create_window_");
    text::push_u64(&mut r, index as u64);
    text::push_str(&mut r, "() -> Option<vui2::OwnedWindow> {\n    let rect = vui2::Rect {\n        x: ");
    text::push_i64(&mut r, window.geometry.x as i64);
    text::push_str(&mut r, ",\n        y: ");
    text::push_i64(&mut r, window.geometry.y as i64);
    text::push_str(&mut r, ",\n        width: ");
    text::push_u64(&mut r, window.geometry.w as u64);
    text::push_str(&mut r, ",\n        height: ");
    text::push_u64(&mut r, window.geometry.h as u64);
    text::push_str(&mut r, ",\n    };\n    let options = vui2::CreateOptions {\n        decorations: ");
    push_decoration_options(&mut r, window);
    text::push_str(&mut r, ",\n        ..vui2::CreateOptions::default()\n    };\n    let window = vui2::OwnedWindow::create_with_options(\"");
    push_quote_escaped(&mut r, window.caption.as_str());
    text::push_str(&mut r, "\", rect, options)?;\n    let id = window.id();\n    id.set_title(\"");
    push_quote_escaped(&mut r, window.caption.as_str());
    text::push_str(&mut r, "\");\n    Some(window)\n}\n");
    proof {
        assert(r@ =~= create_function_text(index as nat, *window));
    }
    r
}

/// The constants generated `src/ui.rs` has for the window at `index`: its
/// model, HTML and CSS files and its decoration literal.
pub open spec fn window_constants(index: nat, w: Ui2Window) -> Seq<char> {
    if index == 0 {
        "pub const WINDOW_"@
        + text::nat_decimal(index)
        + "_MODEL: &str = include_str!(\"../ui/main.ui2.json\");\npub const WINDOW_"@
        + text::nat_decimal(index)
        + "_HTML: &str = include_str!(\"../ui/index.html\");\npub const WINDOW_"@
        + text::nat_decimal(index)
        + "_CSS: &str = include_str!(\"../ui/styles.css\");\npub const WINDOW_"@
        + text::nat_decimal(index)
        + "_DECORATIONS: &str = \""@
        + quote_escaped(model::decorations_literal(w.decorations))
        + "\";\n"@
    } else {
        "pub const WINDOW_"@
        + text::nat_decimal(index)
        + "_MODEL: &str = include_str!(\"../ui/windows/"@
        + file_stem_text(w.name@, index)
        + ".ui2.json\");\npub const WINDOW_"@
        + text::nat_decimal(index)
        + "_HTML: &str = include_str!(\"../ui/windows/"@
        + file_stem_text(w.name@, index)
        + ".html\");\npub const WINDOW_"@
        + text::nat_decimal(index)
        + "_CSS: &str = include_str!(\"../ui/windows/"@
        + file_stem_text(w.name@, index)
        + ".css\");\npub const WINDOW_"@
        + text::nat_decimal(index)
        + "_DECORATIONS: &str = \""@
        + quote_escaped(model::decorations_literal(w.decorations))
        + "\";\n"@
    }
}

fn push_window_constants(out: &mut String, index: usize, w: &Ui2Window)
    ensures
        final(out)@ == old(out)@ + window_constants(index as nat, *w),
{
    let ghost start = out@;
    let literal = w.decorations.to_ui2_literal();
    if index == 0 {
        text::push_str(out, "pub const WINDOW_");
    text::push_u64(out, index as u64);
    text::push_str(out, "_MODEL: &str = include_str!(\"../ui/main.ui2.json\");\npub const WINDOW_");
    text::push_u64(out, index as u64);
    text::push_str(out, "_HTML: &str = include_str!(\"../ui/index.html\");\npub const WINDOW_");
    text::push_u64(out, index as u64);
    text::push_str(out, "_CSS: &str = include_str!(\"../ui/styles.css\");\npub const WINDOW_");
    text::push_u64(out, index as u64);
    text::push_str(out, "_DECORATIONS: &str = \"");
    push_quote_escaped(out, literal.as_str());
    text::push_str(out, "\";\n");
    } else {
        let stem = window_file_stem(w, index);
        text::push_str(out, "pub const WINDOW_");
    text::push_u64(out, index as u64);
    text::push_str(out, "_MODEL: &str = include_str!(\"../ui/windows/");
    text::push_str(out, stem.as_str());
    text::push_str(out, ".ui2.json\");\npub const WINDOW_");
    text::push_u64(out, index as u64);
    text::push_str(out, "_HTML: &str = include_str!(\"../ui/windows/");
    text::push_str(out, stem.as_str());
    text::push_str(out, ".html\");\npub const WINDOW_");
    text::push_u64(out, index as u64);
    text::push_str(out, "_CSS: &str = include_str!(\"../ui/windows/");
    text::push_str(out, stem.as_str());
    text::push_str(out, ".css\");\npub const WINDOW_");
    text::push_u64(out, index as u64);
    text::push_str(out, "_DECORATIONS: &str = \"");
    push_quote_escaped(out, literal.as_str());
    text::push_str(out, "\";\n");
    }
    proof {
        assert(out@ =~= start + window_constants(index as nat, *w));
    }
}

pub open spec fn all_window_constants(ws: Seq<Ui2Window>) -> Seq<char>
    decreases ws.len(),
{
    if ws.len() == 0 {
        Seq::empty()
    } else {
        all_window_constants(ws.drop_last()) + window_constants((ws.len() - 1) as nat, ws.last())
    }
}

pub open spec fn create_functions(ws: Seq<Ui2Window>) -> Seq<Seq<char>> {
    Seq::new(ws.len(), |i: int| create_function_text(i as nat, ws[i]))
}

/// The line of `create_all_windows` that pushes the window at `index`.
pub open spec fn push_line(index: nat) -> Seq<char> {
    "    if let Some(window) = create_window_"@
        + text::nat_decimal(index)
        + "() {\n        windows.push(window);\n    }\n"@
}

pub open spec fn push_lines(n: nat) -> Seq<char>
    decreases n,
{
    if n == 0 {
        Seq::empty()
    } else {
        push_lines((n - 1) as nat) + push_line((n - 1) as nat)
    }
}

/// `src/ui.rs` of a project with no window.
pub open spec fn empty_ui_rs() -> Seq<char> {
    "use v::vui2;\n\npub const APP_ID: &str = \"\";\npub const APP_DISPLAY_NAME: &str = \"\";\n\npub fn create_main_window() -> Option<vui2::OwnedWindow> {\n    None\n}\n\npub fn create_all_windows() -> Vec<vui2::OwnedWindow> {\n    Vec::new()\n}\n"@
}

/// Generated `src/ui.rs`: app constants, each window's constants, one
/// creation function per window, and `create_all_windows`.
pub open spec fn ui_rs_text(p: RadsProject) -> Seq<char> {
    let ws = p.windows@;
    if ws.len() == 0 {
        empty_ui_rs()
    } else {
        "use v::vui2;\n\npub const APP_ID: &str = \""@ + quote_escaped(p.blueprint.app_id@) + "\";\npub const APP_DISPLAY_NAME: &str = \""@ + quote_escaped(
            p.blueprint.display_name@,
        ) + "\";\npub const MAIN_LAYOUT: &str = include_str!(\"../ui/main.ui2\");\npub const MAIN_HTML: &str = WINDOW_0_HTML;\npub const MAIN_CSS: &str = WINDOW_0_CSS;\npub const MAIN_WINDOW_DECORATIONS: &str = WINDOW_0_DECORATIONS;\n"@ + all_window_constants(ws) + "\n\npub fn create_main_window() -> Option<vui2::OwnedWindow> {\n    create_window_0()\n}\n\n"@ + text::join_seqs(
            create_functions(ws),
            "\n"@,
        ) + "\n\npub fn create_all_windows() -> Vec<vui2::OwnedWindow> {\n    let mut windows = Vec::new();\n"@ + push_lines(ws.len()) + "    windows\n}\n"@
    }
}

fn push_all_window_constants(out: &mut String, windows: &Vec<Ui2Window>)
    ensures
        final(out)@ == old(out)@ + all_window_constants(windows@),
{
    let ghost start = out@;
    let mut i: usize = 0;
    while i < windows.len()
        invariant
            i <= windows.len(),
            out@ == start + all_window_constants(windows@.take(i as int)),
        decreases windows.len() - i,
    {
        proof {
            assert(windows@.take(i + 1).drop_last() =~= windows@.take(i as int));
        }
        push_window_constants(out, i, &windows[i]);
        proof {
            assert(out@ =~= start + all_window_constants(windows@.take(i + 1)));
        }
        i += 1;
    }
    proof {
        assert(windows@.take(i as int) =~= windows@);
    }
}

fn push_create_functions(out: &mut String, windows: &Vec<Ui2Window>)
    ensures
        final(out)@ == old(out)@ + text::join_seqs(create_functions(windows@), "\n"@),
{
    let ghost start = out@;
    let ghost fs = create_functions(windows@);
    let mut i: usize = 0;
    while i < windows.len()
        invariant
            i <= windows.len(),
            fs == create_functions(windows@),
            out@ == start + text::join_seqs(fs.take(i as int), "\n"@),
        decreases windows.len() - i,
    {
        proof {
            text::lemma_join_take(fs, "\n"@, i as int);
        }
        if i > 0 {
            text::push_str(out, "\n");
        }
        let f = window_create_function(i, &windows[i]);
        text::push_str(out, f.as_str());
        proof {
            assert(out@ =~= start + text::join_seqs(fs.take(i + 1), "\n"@));
        }
        i += 1;
    }
    proof {
        assert(fs.take(i as int) =~= fs);
    }
}

fn push_push_lines(out: &mut String, n: usize)
    ensures
        final(out)@ == old(out)@ + push_lines(n as nat),
{
    let ghost start = out@;
    let mut i: usize = 0;
    while i < n
        invariant
            i <= n,
            out@ == start + push_lines(i as nat),
        decreases n - i,
    {
        let index = i;
        text::push_str(out, "    if let Some(window) = create_window_");
    text::push_u64(out, index as u64);
    text::push_str(out, "() {\n        windows.push(window);\n    }\n");
        proof {
            assert(out@ =~= start + push_lines((i + 1) as nat));
        }
        i += 1;
    }
}

/// Generated `src/ui.rs` of a project.
pub fn ui_rs(project: &RadsProject) -> (r: String)
    ensures
        r@ == ui_rs_text(*project),
{
    if project.windows.len() == 0 {
        return text::owned("use v::vui2;\n\npub const APP_ID: &str = \"\";\npub const APP_DISPLAY_NAME: &str = \"\";\n\npub fn create_main_window() -> Option<vui2::OwnedWindow> {\n    None\n}\n\npub fn create_all_windows() -> Vec<vui2::OwnedWindow> {\n    Vec::new()\n}\n");
    }
    let mut r = text::owned("use v::vui2;\n\npub const APP_ID: &str = \"");
    push_quote_escaped(&mut r, project.blueprint.app_id.as_str());
    text::push_str(&mut r, "\";\npub const APP_DISPLAY_NAME: &str = \"");
    push_quote_escaped(&mut r, project.blueprint.display_name.as_str());
    text::push_str(&mut r, "\";\npub const MAIN_LAYOUT: &str = include_str!(\"../ui/main.ui2\");\npub const MAIN_HTML: &str = WINDOW_0_HTML;\npub const MAIN_CSS: &str = WINDOW_0_CSS;\npub const MAIN_WINDOW_DECORATIONS: &str = WINDOW_0_DECORATIONS;\n");
    push_all_window_constants(&mut r, &project.windows);
    text::push_str(&mut r, "\n\npub fn create_main_window() -> Option<vui2::OwnedWindow> {\n    create_window_0()\n}\n\n");
    push_create_functions(&mut r, &project.windows);
    text::push_str(&mut r, "\n\npub fn create_all_windows() -> Vec<vui2::OwnedWindow> {\n    let mut windows = Vec::new();\n");
    push_push_lines(&mut r, project.windows.len());
    text::push_str(&mut r, "    windows\n}\n");
    r
}


// ---------------------------------------------------------------------------
// Placeholder rendering, `src/main.rs` and `src/events.rs`
// ---------------------------------------------------------------------------

/// How the values put in for placeholders are escaped.
#[derive(Debug, Clone, Copy, PartialEq, Eq, Structural)]
pub enum TokenEscape {
    /// For a Rust string literal.
    Rust,
    /// For HTML.
    Html,
    /// Not at all.
    Plain,
}

pub open spec fn escaped_with(e: TokenEscape, s: Seq<char>) -> Seq<char> {
    match e {
        TokenEscape::Rust => quote_escaped(s),
        TokenEscape::Html => html_text_escaped(s),
        TokenEscape::Plain => s,
    }
}

fn escape_with(e: TokenEscape, s: &str) -> (r: String)
    ensures
        r@ == escaped_with(e, s@),
{
    match e {
        TokenEscape::Rust => escape_rust_string(s),
        TokenEscape::Html => escape_html(s),
        TokenEscape::Plain => text::owned(s),
    }
}

/// The caption `{{WINDOW_CAPTION}}` stands for: the first window's, else the
/// project name.
pub open spec fn window_caption(p: RadsProject) -> Seq<char> {
    if p.windows@.len() > 0 {
        p.windows@[0].caption@
    } else {
        p.name@
    }
}

/// Template text with the project's placeholders replaced by escaped values:
/// display name, app id, slug, template id, template name, window caption.
pub open spec fn project_tokens(
    input: Seq<char>,
    p: RadsProject,
    template_id: Seq<char>,
    template_name: Seq<char>,
    e: TokenEscape,
) -> Seq<char> {
    text::replace_seq(
        project_templates::rendered(
            input,
            escaped_with(e, p.blueprint.display_name@),
            escaped_with(e, p.blueprint.app_id@),
            escaped_with(e, p.slug@),
            escaped_with(e, template_id),
            escaped_with(e, template_name),
        ),
        "{{WINDOW_CAPTION}}"@,
        escaped_with(e, window_caption(p)),
    )
}

fn render_project_tokens(
    input: &str,
    project: &RadsProject,
    template: &ProjectTemplate,
    escape: TokenEscape,
) -> (r: String)
    ensures
        r@ == project_tokens(input@, *project, template.id@, template.name@, escape),
{
    let caption: &str = if project.windows.len() > 0 {
        project.windows[0].caption.as_str()
    } else {
        project.name.as_str()
    };
    let display = escape_with(escape, project.blueprint.display_name.as_str());
    let app_id = escape_with(escape, project.blueprint.app_id.as_str());
    let slug = escape_with(escape, project.slug.as_str());
    let id = escape_with(escape, template.id);
    let name = escape_with(escape, template.name);
    let cap = escape_with(escape, caption);
    let rendered = project_templates::render_values(
        input,
        display.as_str(),
        app_id.as_str(),
        slug.as_str(),
        id.as_str(),
        name.as_str(),
    );
    proof {
        reveal_strlit("{{WINDOW_CAPTION}}");
    }
    text::replace_str(rendered.as_str(), "{{WINDOW_CAPTION}}", cap.as_str())
}

/// Generated `src/main.rs` from a template.
pub fn main_rs_for_template(project: &RadsProject, template: &ProjectTemplate) -> (r: String)
    ensures
        r@ == project_tokens(
            template.starter_main_rs@,
            *project,
            template.id@,
            template.name@,
            TokenEscape::Rust,
        ),
{
    render_project_tokens(template.starter_main_rs, project, template, TokenEscape::Rust)
}

/// Generated `src/main.rs` from the default starter of the project's kind.
pub fn main_rs(project: &RadsProject) -> (r: String)
    ensures
        r@ == project_tokens(
            project_templates::default_view_for_kind(project.app_kind).main_rs,
            *project,
            project_templates::default_view_for_kind(project.app_kind).id,
            project_templates::default_view_for_kind(project.app_kind).name,
            TokenEscape::Rust,
        ),
{
    let template = project_templates::default_project_template_for_kind(project.app_kind);
    main_rs_for_template(project, &template)
}

/// `s` ending in a newline: unchanged if it does, else with one added.
pub open spec fn with_newline(s: Seq<char>) -> Seq<char> {
    if s.len() > 0 && s.last() == '\n' {
        s
    } else {
        s.push('\n')
    }
}

/// The stub generated for a handler, given (handler, event, control name).
pub open spec fn stub_text(t: (Seq<char>, Seq<char>, Seq<char>)) -> Seq<char> {
    "\npub fn "@
        + t.0
        + "() {\n    v::vshell::line(\""@
        + quote_escaped(t.1)
        + " fired on "@
        + quote_escaped(t.2)
        + "\");\n}\n"@
}

/// The handlers already seen, as a set.
pub open spec fn seen_set(v: Seq<String>) -> Set<Seq<char>> {
    Set::new(|h: Seq<char>| exists|i: int| 0 <= i < v.len() && #[trigger] v[i]@ == h)
}

/// Stubs for a control's events, each handler once: those already in `seen`
/// are skipped; gives the text and the handlers seen afterwards.
pub open spec fn event_stubs(
    control: Seq<char>,
    es: Seq<model::EventBinding>,
    seen: Set<Seq<char>>,
) -> (Seq<char>, Set<Seq<char>>)
    decreases es.len(),
{
    if es.len() == 0 {
        (Seq::empty(), seen)
    } else {
        let prev = event_stubs(control, es.drop_last(), seen);
        let e = es.last();
        if prev.1.contains(e.handler@) {
            prev
        } else {
            (prev.0 + stub_text((e.handler@, e.event@, control)), prev.1.insert(e.handler@))
        }
    }
}

/// Stubs for the events of each control in turn.
pub open spec fn control_stubs(cs: Seq<Ui2Control>, seen: Set<Seq<char>>) -> (
    Seq<char>,
    Set<Seq<char>>,
)
    decreases cs.len(),
{
    if cs.len() == 0 {
        (Seq::empty(), seen)
    } else {
        let prev = control_stubs(cs.drop_last(), seen);
        let next = event_stubs(cs.last().name@, cs.last().events@, prev.1);
        (prev.0 + next.0, next.1)
    }
}

/// Stubs for the controls of each window in turn.
pub open spec fn window_stubs(ws: Seq<Ui2Window>, seen: Set<Seq<char>>) -> (
    Seq<char>,
    Set<Seq<char>>,
)
    decreases ws.len(),
{
    if ws.len() == 0 {
        (Seq::empty(), seen)
    } else {
        let prev = window_stubs(ws.drop_last(), seen);
        let next = control_stubs(ws.last().controls@, prev.1);
        (prev.0 + next.0, next.1)
    }
}

/// Generated `src/events.rs`: the template's events text, ended by a newline,
/// then one stub per distinct handler in order of first use.
pub open spec fn events_rs_text(p: RadsProject, t: project_templates::TemplateView) -> Seq<char> {
    with_newline(project_tokens(t.events_rs, p, t.id, t.name, TokenEscape::Rust))
        + window_stubs(p.windows@, Set::empty()).0
}

fn contains_string(v: &Vec<String>, s: &str) -> (b: bool)
    ensures
        b == seen_set(v@).contains(s@),
{
    let mut i: usize = 0;
    while i < v.len()
        invariant
            i <= v.len(),
            forall|j: int| 0 <= j < i ==> #[trigger] v@[j]@ != s@,
        decreases v.len() - i,
    {
        if text::str_eq(v[i].as_str(), s) {
            assert(v@[i as int]@ == s@);
            return true;
        }
        i += 1;
    }
    false
}

fn push_event_stubs(body: &mut String, seen: &mut Vec<String>, control: &Ui2Control)
    ensures
        final(body)@ == old(body)@ + event_stubs(
            control.name@,
            control.events@,
            seen_set(old(seen)@),
        ).0,
        seen_set(final(seen)@) == event_stubs(control.name@, control.events@, seen_set(old(seen)@)).1,
{
    let ghost b0 = body@;
    let ghost s0 = seen_set(seen@);
    let ghost es = control.events@;
    let mut i: usize = 0;
    while i < control.events.len()
        invariant
            i <= control.events.len(),
            es == control.events@,
            body@ == b0 + event_stubs(control.name@, es.take(i as int), s0).0,
            seen_set(seen@) == event_stubs(control.name@, es.take(i as int), s0).1,
        decreases control.events.len() - i,
    {
        proof {
            assert(es.take(i + 1).drop_last() =~= es.take(i as int));
        }
        let event = &control.events[i];
        if !contains_string(seen, event.handler.as_str()) {
            let ghost before = seen@;
            seen.push(event.handler.clone());
            proof {
                assert forall|h: Seq<char>| seen_set(seen@).contains(h) == seen_set(before).insert(
                    event.handler@,
                ).contains(h) by {
                    if seen_set(before).contains(h) {
                        let k = choose|k: int| 0 <= k < before.len() && #[trigger] before[k]@ == h;
                        assert(seen@[k]@ == h);
                    }
                    if h == event.handler@ {
                        assert(seen@[before.len() as int]@ == h);
                    }
                    if seen_set(seen@).contains(h) {
                        let k = choose|k: int| 0 <= k < seen@.len() && #[trigger] seen@[k]@ == h;
                        if k < before.len() {
                            assert(before[k]@ == h);
                        }
                    }
                }
                assert(seen_set(seen@) =~= seen_set(before).insert(event.handler@));
            }
            text::push_str(body, "\npub fn ");
    text::push_str(body, event.handler.as_str());
    text::push_str(body, "() {\n    v::vshell::line(\"");
    push_quote_escaped(body, event.event.as_str());
    text::push_str(body, " fired on ");
    push_quote_escaped(body, control.name.as_str());
    text::push_str(body, "\");\n}\n");
        }
        proof {
            assert(body@ =~= b0 + event_stubs(control.name@, es.take(i + 1), s0).0);
        }
        i += 1;
    }
    proof {
        assert(es.take(i as int) =~= es);
    }
}

fn push_control_stubs(body: &mut String, seen: &mut Vec<String>, controls: &Vec<Ui2Control>)
    ensures
        final(body)@ == old(body)@ + control_stubs(controls@, seen_set(old(seen)@)).0,
        seen_set(final(seen)@) == control_stubs(controls@, seen_set(old(seen)@)).1,
{
    let ghost b0 = body@;
    let ghost s0 = seen_set(seen@);
    let mut i: usize = 0;
    while i < controls.len()
        invariant
            i <= controls.len(),
            body@ == b0 + control_stubs(controls@.take(i as int), s0).0,
            seen_set(seen@) == control_stubs(controls@.take(i as int), s0).1,
        decreases controls.len() - i,
    {
        proof {
            assert(controls@.take(i + 1).drop_last() =~= controls@.take(i as int));
        }
        push_event_stubs(body, seen, &controls[i]);
        proof {
            assert(body@ =~= b0 + control_stubs(controls@.take(i + 1), s0).0);
        }
        i += 1;
    }
    proof {
        assert(controls@.take(i as int) =~= controls@);
    }
}

fn push_window_stubs(body: &mut String, seen: &mut Vec<String>, windows: &Vec<Ui2Window>)
    ensures
        final(body)@ == old(body)@ + window_stubs(windows@, seen_set(old(seen)@)).0,
        seen_set(final(seen)@) == window_stubs(windows@, seen_set(old(seen)@)).1,
{
    let ghost b0 = body@;
    let ghost s0 = seen_set(seen@);
    let mut i: usize = 0;
    while i < windows.len()
        invariant
            i <= windows.len(),
            body@ == b0 + window_stubs(windows@.take(i as int), s0).0,
            seen_set(seen@) == window_stubs(windows@.take(i as int), s0).1,
        decreases windows.len() - i,
    {
        proof {
            assert(windows@.take(i + 1).drop_last() =~= windows@.take(i as int));
        }
        push_control_stubs(body, seen, &windows[i].controls);
        proof {
            assert(body@ =~= b0 + window_stubs(windows@.take(i + 1), s0).0);
        }
        i += 1;
    }
    proof {
        assert(windows@.take(i as int) =~= windows@);
    }
}

/// Generated `src/events.rs` from a template.
pub fn events_rs_for_template(project: &RadsProject, template: &ProjectTemplate) -> (r: String)
    ensures
        r@ == events_rs_text(*project, template@),
{
    let mut body = render_project_tokens(
        template.starter_events_rs,
        project,
        template,
        TokenEscape::Rust,
    );
    let n = body.as_str().unicode_len();
    if n == 0 || body.as_str().get_char(n - 1) != '\n' {
        text::push_char(&mut body, '\n');
    }
    let mut seen: Vec<String> = Vec::new();
    proof {
        assert(seen_set(seen@) =~= Set::<Seq<char>>::empty());
    }
    push_window_stubs(&mut body, &mut seen, &project.windows);
    body
}

/// Generated `src/events.rs` from the default starter of the project's kind.
pub fn events_rs(project: &RadsProject) -> (r: String)
    ensures
        r@ == events_rs_text(*project, project_templates::default_view_for_kind(project.app_kind)),
{
    let template = project_templates::default_project_template_for_kind(project.app_kind);
    events_rs_for_template(project, &template)
}

// ---------------------------------------------------------------------------
// Window markup
// ---------------------------------------------------------------------------

/// A window's HTML: its own description when that is not blank, else the
/// template's HTML rendered with HTML-escaped values.
pub open spec fn window_html_text(p: RadsProject, t: project_templates::TemplateView, w: Ui2Window) -> Seq<char> {
    if text::trim_seq(w.ui_description.html@).len() > 0 {
        w.ui_description.html@
    } else {
        project_tokens(t.html, p, t.id, t.name, TokenEscape::Html)
    }
}

/// A window's CSS: its own stylesheet when that is not blank, else the
/// template's CSS rendered as is.
pub open spec fn window_css_text(p: RadsProject, t: project_templates::TemplateView, w: Ui2Window) -> Seq<char> {
    if text::trim_seq(w.ui_description.css@).len() > 0 {
        w.ui_description.css@
    } else {
        project_tokens(t.css, p, t.id, t.name, TokenEscape::Plain)
    }
}

fn is_blank(s: &String) -> (b: bool)
    ensures
        b == (text::trim_seq(s@).len() == 0),
{
    let chars = text::chars_of(s.as_str());
    let trimmed = text::trim_chars(&chars);
    trimmed.len() == 0
}

pub fn html_for_window(project: &RadsProject, template: &ProjectTemplate, window: &Ui2Window) -> (r:
    String)
    ensures
        r@ == window_html_text(*project, template@, *window),
{
    if !is_blank(&window.ui_description.html) {
        return window.ui_description.html.clone();
    }
    render_project_tokens(template.initial_html, project, template, TokenEscape::Html)
}

pub fn css_for_window(project: &RadsProject, template: &ProjectTemplate, window: &Ui2Window) -> (r:
    String)
    ensures
        r@ == window_css_text(*project, template@, *window),
{
    if !is_blank(&window.ui_description.css) {
        return window.ui_description.css.clone();
    }
    render_project_tokens(template.initial_css, project, template, TokenEscape::Plain)
}

/// The main window's HTML, or nothing when the project has no window.
pub fn html(project: &RadsProject, template: &ProjectTemplate) -> (r: String)
    ensures
        r@ == if project.windows@.len() > 0 {
            window_html_text(*project, template@, project.windows@[0])
        } else {
            Seq::<char>::empty()
        },
{
    if project.windows.len() > 0 {
        html_for_window(project, template, &project.windows[0])
    } else {
        String::new()
    }
}

/// The main window's CSS, or nothing when the project has no window.
pub fn css(project: &RadsProject, template: &ProjectTemplate) -> (r: String)
    ensures
        r@ == if project.windows@.len() > 0 {
            window_css_text(*project, template@, project.windows@[0])
        } else {
            Seq::<char>::empty()
        },
{
    if project.windows.len() > 0 {
        css_for_window(project, template, &project.windows[0])
    } else {
        String::new()
    }
}

// ---------------------------------------------------------------------------
// Cargo manifest, README and package manifest
// ---------------------------------------------------------------------------

/// Generated `Cargo.toml`, depending on the `v` crate at `v_path`.
pub open spec fn cargo_toml_text(p: RadsProject, v_path: Seq<char>) -> Seq<char> {
    "[package]\nname = \""@
        + p.slug@
        + "\"\nversion = \""@
        + p.blueprint.version@
        + "\"\nedition = \"2024\"\ndescription = \""@
        + quote_escaped(p.blueprint.description@)
        + "\"\nlicense = \""@
        + quote_escaped(p.blueprint.license@)
        + "\"\n\n[dependencies]\nv = { path = \""@
        + quote_escaped(v_path)
        + "\" }\n"@
}

/// Generated `Cargo.toml`: the project's slug, version, description and
/// license, and a path dependency on the `v` crate at `v_dependency_path`.
pub fn cargo_toml(project: &RadsProject, v_dependency_path: &str) -> (r: String)
    ensures
        r@ == cargo_toml_text(*project, v_dependency_path@),
{
    let mut r = String::new();
    text::push_str(&mut r, "[package]\nname = \"");
    text::push_str(&mut r, project.slug.as_str());
    text::push_str(&mut r, "\"\nversion = \"");
    text::push_str(&mut r, project.blueprint.version.as_str());
    text::push_str(&mut r, "\"\nedition = \"2024\"\ndescription = \"");
    push_quote_escaped(&mut r, project.blueprint.description.as_str());
    text::push_str(&mut r, "\"\nlicense = \"");
    push_quote_escaped(&mut r, project.blueprint.license.as_str());
    text::push_str(&mut r, "\"\n\n[dependencies]\nv = { path = \"");
    push_quote_escaped(&mut r, v_dependency_path);
    text::push_str(&mut r, "\" }\n");
    proof {
        assert(r@ =~= cargo_toml_text(*project, v_dependency_path@));
    }
    r
}

/// Whether a project has a UI2 surface: a UI2 app with at least one window.
pub open spec fn has_ui_surface(p: RadsProject) -> bool {
    p.app_kind == AppKind::Ui2 && p.windows@.len() > 0
}

/// The README lines for UI files, present when the project has a UI2
/// surface.
pub open spec fn readme_ui_files(p: RadsProject) -> Seq<char> {
    if has_ui_surface(p) {
        "- `ui/main.ui2`: readable UI2 layout with serialized decorations and event bindings.\n- `ui/main.ui2.json`: JSON copy of the main window model.\n- `ui/windows/`: per-window JSON, HTML, and CSS files for secondary UI2 windows.\n- `ui/index.html`: starter markup for the main window.\n- `ui/styles.css`: starter stylesheet for the main window.\n- `src/ui.rs`: UI2 window creation helper.\n"@
    } else {
        Seq::empty()
    }
}

fn push_readme_ui_files(out: &mut String, project: &RadsProject)
    ensures
        final(out)@ == old(out)@ + readme_ui_files(*project),
{
    if project.app_kind.has_ui2() && project.windows.len() > 0 {
        text::push_str(out, "- `ui/main.ui2`: readable UI2 layout with serialized decorations and event bindings.\n- `ui/main.ui2.json`: JSON copy of the main window model.\n- `ui/windows/`: per-window JSON, HTML, and CSS files for secondary UI2 windows.\n- `ui/index.html`: starter markup for the main window.\n- `ui/styles.css`: starter stylesheet for the main window.\n- `src/ui.rs`: UI2 window creation helper.\n");
    } else {
        proof {
            assert(old(out)@ + Seq::<char>::empty() =~= old(out)@);
        }
    }
}

/// Generated `README.md`.
pub open spec fn readme_text(p: RadsProject, t: project_templates::TemplateView) -> Seq<char> {
    "# "@
        + p.name@
        + "\n\nGenerated with TRUEOS RADS.\n\nTemplate: "@
        + t.name
        + " (`"@
        + t.id
        + "`)\nApp kind: "@
        + model::app_kind_label(p.app_kind)
        + "\n\n## Files\n\n- `app.blueprint.json`: app metadata and capabilities.\n- `package/package.blueprint.json`: package metadata and output artifacts.\n"@
        + readme_ui_files(p)
        + "- `src/main.rs`: app entrypoint.\n- `src/events.rs`: generated event stubs.\n\n## Run\n\n```sh\ncargo check\n```\n"@
}

/// Generated `README.md` for a template: name, template, app kind, the files
/// (UI files only with a UI2 surface) and how to check the project.
pub fn readme_for_template(project: &RadsProject, template: &ProjectTemplate) -> (r: String)
    ensures
        r@ == readme_text(*project, template@),
{
    let mut r = String::new();
    text::push_str(&mut r, "# ");
    text::push_str(&mut r, project.name.as_str());
    text::push_str(&mut r, "\n\nGenerated with TRUEOS RADS.\n\nTemplate: ");
    text::push_str(&mut r, template.name);
    text::push_str(&mut r, " (`");
    text::push_str(&mut r, template.id);
    text::push_str(&mut r, "`)\nApp kind: ");
    text::push_str(&mut r, project.app_kind.label());
    text::push_str(&mut r, "\n\n## Files\n\n- `app.blueprint.json`: app metadata and capabilities.\n- `package/package.blueprint.json`: package metadata and output artifacts.\n");
    push_readme_ui_files(&mut r, project);
    text::push_str(&mut r, "- `src/main.rs`: app entrypoint.\n- `src/events.rs`: generated event stubs.\n\n## Run\n\n```sh\ncargo check\n```\n");
    proof {
        assert(r@ =~= readme_text(*project, template@));
    }
    r
}

/// Generated `README.md` from the default starter of the project's kind.
pub fn readme(project: &RadsProject) -> (r: String)
    ensures
        r@ == readme_text(*project, project_templates::default_view_for_kind(project.app_kind)),
{
    let template = project_templates::default_project_template_for_kind(project.app_kind);
    readme_for_template(project, &template)
}

/// The `blueprints` entries of the package manifest: app and package
/// blueprints, and with a UI2 surface the layout, markup and styles.
pub open spec fn manifest_blueprint_views(p: RadsProject) -> Seq<(Seq<char>, Seq<char>)> {
    seq![("app"@, "app.blueprint.json"@), ("package"@, "package/package.blueprint.json"@)] + if has_ui_surface(p) {
        seq![
            ("layout"@, "ui/main.ui2"@),
            ("html"@, "ui/index.html"@),
            ("styles"@, "ui/styles.css"@),
        ]
    } else {
        Seq::empty()
    }
}

pub open spec fn pairs_view(v: Seq<(String, String)>) -> Seq<(Seq<char>, Seq<char>)> {
    v.map_values(|p: (String, String)| (p.0@, p.1@))
}

/// The `blueprints` entries the package manifest lists for a project.
pub fn manifest_blueprints(project: &RadsProject) -> (v: Vec<(String, String)>)
    ensures
        pairs_view(v@) == manifest_blueprint_views(*project),
{
    let mut v = vec![
        (text::owned("app"), text::owned("app.blueprint.json")),
        (text::owned("package"), text::owned("package/package.blueprint.json")),
    ];
    if project.app_kind.has_ui2() && project.windows.len() > 0 {
        v.push((text::owned("layout"), text::owned("ui/main.ui2")));
        v.push((text::owned("html"), text::owned("ui/index.html")));
        v.push((text::owned("styles"), text::owned("ui/styles.css")));
    }
    proof {
        assert(pairs_view(v@) =~= manifest_blueprint_views(*project));
    }
    v
}

} // verus!
