//! The decisions behind the workspace's HTTP API: template summaries,
//! window and control updates, new windows, assets, job kinds and status
//! codes. The routes, locking and file I/O run in the application.

use vstd::prelude::*;
use base64::Engine;
use crate::text;
use crate::model::{self, AppKind, EventBinding, Property, RadsProject, Rect, Ui2Control, Ui2Window, WindowDecorations};
use crate::designer;
use crate::file_store::{self, ComponentView};
use crate::jobs::{JobActivity, JobKind, JobStage, JobStatus};
use crate::localcoder::LocalCoderErrorKind;
use crate::project_templates;
use crate::templates;
use crate::ordering;
use crate::ui2_options::{self, Ui2HtmlCssDescription};

verus! {

pub open spec fn strs_view(v: Seq<&'static str>) -> Seq<Seq<char>> {
    v.map_values(|s: &'static str| s@)
}

// ---------------------------------------------------------------------------
// Templates
// ---------------------------------------------------------------------------

pub open spec fn tags_for(kind: AppKind) -> Seq<Seq<char>> {
    match kind {
        AppKind::Ui2 => seq!["ui2"@, "blueprint"@, "package"@],
        AppKind::Service => seq!["service"@, "background"@, "blueprint"@, "package"@],
        AppKind::Shell => seq!["shell"@, "command"@, "blueprint"@, "package"@],
    }
}

/// The tags a template of this kind is listed with.
pub fn template_tags(app_kind: AppKind) -> (v: Vec<&'static str>)
    ensures
        strs_view(v@) == tags_for(app_kind),
{
    let v = match app_kind {
        AppKind::Ui2 => vec!["ui2", "blueprint", "package"],
        AppKind::Service => vec!["service", "background", "blueprint", "package"],
        AppKind::Shell => vec!["shell", "command", "blueprint", "package"],
    };
    proof {
        assert(strs_view(v@) =~= tags_for(app_kind));
    }
    v
}

/// The files a template generates: the blueprints, manifest, Cargo
/// manifest, sources and README, and for a UI2 app with a window the layout,
/// window files, markup, styles and `src/ui.rs`.
pub open spec fn files_for(kind: AppKind, has_window: bool) -> Seq<Seq<char>> {
    seq![
        "rads.project.json"@,
        "app.blueprint.json"@,
        "package/package.blueprint.json"@,
        "package/manifest.trueos.json"@,
        "Cargo.toml"@,
        "src/main.rs"@,
        "src/events.rs"@,
        "README.md"@,
    ] + if kind == AppKind::Ui2 && has_window {
        seq![
            "ui/main.ui2"@,
            "ui/main.ui2.json"@,
            "ui/windows/*.ui2.json"@,
            "ui/windows/*.html"@,
            "ui/windows/*.css"@,
            "ui/index.html"@,
            "ui/styles.css"@,
            "src/ui.rs"@,
        ]
    } else {
        Seq::empty()
    }
}

pub fn template_files(app_kind: AppKind, has_window: bool) -> (v: Vec<&'static str>)
    ensures
        strs_view(v@) == files_for(app_kind, has_window),
{
    let mut files = vec![
        "rads.project.json",
        "app.blueprint.json",
        "package/package.blueprint.json",
        "package/manifest.trueos.json",
        "Cargo.toml",
        "src/main.rs",
        "src/events.rs",
        "README.md",
    ];
    if app_kind.has_ui2() && has_window {
        files.push("ui/main.ui2");
        files.push("ui/main.ui2.json");
        files.push("ui/windows/*.ui2.json");
        files.push("ui/windows/*.html");
        files.push("ui/windows/*.css");
        files.push("ui/index.html");
        files.push("ui/styles.css");
        files.push("src/ui.rs");
    }
    proof {
        assert(strs_view(files@) =~= files_for(app_kind, has_window));
    }
    files
}

/// A template as the template list shows it.
pub struct ProjectTemplateSummary {
    pub id: &'static str,
    pub name: &'static str,
    pub description: &'static str,
    pub app_kind: AppKind,
    pub tags: Vec<&'static str>,
    pub files: Vec<&'static str>,
}

/// The summary of a template: its id, name, description and kind, its tags
/// and the files it generates.
pub open spec fn is_summary(s: ProjectTemplateSummary, t: project_templates::TemplateView) -> bool {
    &&& s.id@ == t.id
    &&& s.name@ == t.name
    &&& s.description@ == t.description
    &&& s.app_kind == t.app_kind
    &&& strs_view(s.tags@) == tags_for(t.app_kind)
    &&& strs_view(s.files@) == files_for(t.app_kind, t.window is Some)
}

/// The template list: one summary per starter, in catalog order.
pub fn template_summaries() -> (v: Vec<ProjectTemplateSummary>)
    ensures
        v@.len() == project_templates::template_catalog().len(),
        forall|i: int|
            0 <= i < v@.len() ==> #[trigger] is_summary(v@[i], project_templates::template_catalog()[i]),
{
    let all = project_templates::available_project_templates();
    let mut v: Vec<ProjectTemplateSummary> = Vec::new();
    let mut i: usize = 0;
    while i < all.len()
        invariant
            i <= all.len(),
            project_templates::templates_view(all@) == project_templates::template_catalog(),
            v@.len() == i,
            forall|j: int|
                0 <= j < i ==> #[trigger] is_summary(v@[j], project_templates::template_catalog()[j]),
        decreases all.len() - i,
    {
        let t = &all[i];
        proof {
            assert(project_templates::template_catalog()[i as int] == all@[i as int]@);
        }
        v.push(
            ProjectTemplateSummary {
                id: t.id,
                name: t.name,
                description: t.description,
                app_kind: t.app_kind,
                tags: template_tags(t.app_kind),
                files: template_files(t.app_kind, t.window.is_some()),
            },
        );
        i += 1;
    }
    v
}

// ---------------------------------------------------------------------------
// Small parsers and texts
// ---------------------------------------------------------------------------

/// The HTTP status code a local coder error is answered with.
pub open spec fn status_for(kind: LocalCoderErrorKind) -> u16 {
    match kind {
        LocalCoderErrorKind::Unavailable => 503,
        LocalCoderErrorKind::InvalidArgs => 400,
        LocalCoderErrorKind::TimedOut => 504,
        LocalCoderErrorKind::SpawnFailed => 502,
        LocalCoderErrorKind::Io => 502,
        LocalCoderErrorKind::ExitFailed => 502,
    }
}

pub fn localcoder_status_code(kind: LocalCoderErrorKind) -> (code: u16)
    ensures
        code == status_for(kind),
{
    match kind {
        LocalCoderErrorKind::Unavailable => 503,
        LocalCoderErrorKind::InvalidArgs => 400,
        LocalCoderErrorKind::TimedOut => 504,
        LocalCoderErrorKind::SpawnFailed | LocalCoderErrorKind::Io | LocalCoderErrorKind::ExitFailed => 502,
    }
}

/// Escapes text for HTML.
pub fn escape_html_text(input: &str) -> (r: String)
    ensures
        r@ == templates::html_text_escaped(input@),
{
    templates::escape_html(input)
}

/// `invalid integer for `<key>`: <error>`.
pub fn parse_i32(key: &str, value: &str) -> (r: Result<i32, String>)
    ensures
        match r {
            Ok(n) => text::signed_decimal(value@) == Some(n as int),
            Err(e) => !(text::signed_decimal(value@) matches Some(v) && i32::MIN <= v <= i32::MAX)
                && e@ == "invalid integer for `"@ + key@ + "`: "@ + text::i32_parse_error(value@),
        },
{
    match text::parse_i32_text(value) {
        Ok(n) => Ok(n),
        Err(err) => {
            let mut e = text::owned("invalid integer for `");
            text::push_str(&mut e, key);
            text::push_str(&mut e, "`: ");
            text::push_str(&mut e, err.as_str());
            Err(e)
        },
    }
}

pub fn parse_u32(key: &str, value: &str) -> (r: Result<u32, String>)
    ensures
        match r {
            Ok(n) => text::unsigned_decimal(value@) == Some(n as int),
            Err(e) => !(text::unsigned_decimal(value@) matches Some(v) && v <= u32::MAX) && e@
                == "invalid unsigned integer for `"@ + key@ + "`: "@ + text::u32_parse_error(value@),
        },
{
    match text::parse_u32_text(value) {
        Ok(n) => Ok(n),
        Err(err) => {
            let mut e = text::owned("invalid unsigned integer for `");
            text::push_str(&mut e, key);
            text::push_str(&mut e, "`: ");
            text::push_str(&mut e, err.as_str());
            Err(e)
        },
    }
}

/// The boolean a setting's text stands for, in any ASCII case: `true`,
/// `1`, `yes`, `on` or `false`, `0`, `no`, `off`.
pub open spec fn bool_value(v: Seq<char>) -> Option<bool> {
    let l = text::lower_seq(v);
    if l == "true"@ || l == "1"@ || l == "yes"@ || l == "on"@ {
        Some(true)
    } else if l == "false"@ || l == "0"@ || l == "no"@ || l == "off"@ {
        Some(false)
    } else {
        None
    }
}

fn is_word(v: &Vec<char>, w: &str) -> (b: bool)
    ensures
        b == (v@ == w@),
{
    let wv = text::chars_of(w);
    text::chars_eq(v, &wv)
}

pub fn parse_bool(key: &str, value: &str) -> (r: Result<bool, String>)
    ensures
        match bool_value(value@) {
            Some(b) => r == Ok::<bool, String>(b),
            None => r matches Err(e) && e@ == "invalid boolean for `"@ + key@ + "`: "@ + value@,
        },
{
    let l = text::ascii_lowercase(value);
    if is_word(&l, "true") || is_word(&l, "1") || is_word(&l, "yes") || is_word(&l, "on") {
        Ok(true)
    } else if is_word(&l, "false") || is_word(&l, "0") || is_word(&l, "no") || is_word(&l, "off") {
        Ok(false)
    } else {
        let mut e = text::owned("invalid boolean for `");
        text::push_str(&mut e, key);
        text::push_str(&mut e, "`: ");
        text::push_str(&mut e, value);
        Err(e)
    }
}

// ---------------------------------------------------------------------------
// Assets
// ---------------------------------------------------------------------------

/// The result of cleaning an asset name: trimmed, a single path component
/// that is a file name.
pub open spec fn asset_name_result(input: Seq<char>) -> Result<Seq<char>, Seq<char>> {
    let t = text::trim_seq(input);
    if t.len() == 0 {
        Err("asset name is required"@)
    } else if file_store::components(t).len() != 1 {
        Err("asset name cannot contain path separators"@)
    } else {
        match file_store::file_name_of(t) {
            None => Err("asset name is not valid UTF-8"@),
            Some(n) => Ok(n),
        }
    }
}

pub fn sanitize_asset_name(input: &str) -> (r: Result<String, String>)
    ensures
        match asset_name_result(input@) {
            Ok(n) => r matches Ok(s) && s@ == n,
            Err(m) => r matches Err(e) && e@ == m,
        },
{
    let chars = text::chars_of(input);
    let trimmed_chars = text::trim_chars(&chars);
    if trimmed_chars.len() == 0 {
        return Err(text::owned("asset name is required"));
    }
    let trimmed = text::string_of(&trimmed_chars);
    let cs = file_store::path_components(trimmed.as_str());
    if cs.len() != 1 {
        return Err(text::owned("asset name cannot contain path separators"));
    }
    match file_store::file_name(trimmed.as_str()) {
        None => Err(text::owned("asset name is not valid UTF-8")),
        Some(n) => Ok(n),
    }
}

/// The position of the last `.` in a name, if any.
pub open spec fn last_dot(f: Seq<char>) -> Option<int>
    decreases f.len(),
{
    if f.len() == 0 {
        None
    } else if f.last() == '.' {
        Some(f.len() - 1)
    } else {
        last_dot(f.drop_last())
    }
}

/// `Path::extension`: what follows the last `.` of the file name, unless
/// that dot starts the name.
pub open spec fn extension_of(name: Seq<char>) -> Option<Seq<char>> {
    match file_store::file_name_of(name) {
        None => None,
        Some(f) => match last_dot(f) {
            None => None,
            Some(k) => if k == 0 {
                None
            } else {
                Some(f.skip(k + 1))
            },
        },
    }
}

proof fn lemma_last_dot(f: Seq<char>, k: int)
    requires
        0 <= k < f.len(),
        f[k] == '.',
        forall|j: int| k < j < f.len() ==> f[j] != '.',
    ensures
        last_dot(f) == Some(k),
    decreases f.len(),
{
    if k < f.len() - 1 {
        lemma_last_dot(f.drop_last(), k);
    }
}

proof fn lemma_no_dot(f: Seq<char>)
    requires
        forall|j: int| 0 <= j < f.len() ==> f[j] != '.',
    ensures
        last_dot(f) is None,
    decreases f.len(),
{
    if f.len() > 0 {
        lemma_no_dot(f.drop_last());
    }
}

fn extension(name: &str) -> (r: Option<Vec<char>>)
    ensures
        match extension_of(name@) {
            Some(e) => r matches Some(v) && v@ == e,
            None => r is None,
        },
{
    let f = match file_store::file_name(name) {
        None => {
            return None;
        },
        Some(f) => f,
    };
    let fc = text::chars_of(f.as_str());
    let mut k: usize = fc.len();
    while k > 0 && fc[k - 1] != '.'
        invariant
            k <= fc.len(),
            forall|j: int| k <= j < fc.len() ==> fc@[j] != '.',
        decreases k,
    {
        k -= 1;
    }
    if k == 0 {
        proof {
            lemma_no_dot(fc@);
        }
        return None;
    }
    proof {
        lemma_last_dot(fc@, k - 1);
    }
    if k == 1 {
        return None;
    }
    let mut out: Vec<char> = Vec::new();
    let mut i: usize = k;
    while i < fc.len()
        invariant
            k <= i <= fc.len(),
            out@ == fc@.subrange(k as int, i as int),
        decreases fc.len() - i,
    {
        out.push(fc[i]);
        i += 1;
        proof {
            assert(out@ =~= fc@.subrange(k as int, i as int));
        }
    }
    proof {
        assert(out@ =~= fc@.skip(k as int));
    }
    Some(out)
}

/// The image types assets may have.
pub open spec fn asset_extension_result(name: Seq<char>) -> Result<Seq<char>, Seq<char>> {
    let e = text::lower_seq(
        match extension_of(name) {
            Some(x) => x,
            None => Seq::empty(),
        },
    );
    if e == "jpg"@ || e == "jpeg"@ || e == "png"@ || e == "svg"@ || e == "bmp"@ {
        Ok(e)
    } else {
        Err("asset type must be JPG, JPEG, PNG, SVG, or BMP"@)
    }
}

pub fn asset_extension(name: &str) -> (r: Result<&'static str, String>)
    ensures
        match asset_extension_result(name@) {
            Ok(e) => r matches Ok(s) && s@ == e,
            Err(m) => r matches Err(s) && s@ == m,
        },
{
    let raw = match extension(name) {
        Some(v) => v,
        None => Vec::new(),
    };
    let raw_text = text::string_of(&raw);
    let e = text::ascii_lowercase(raw_text.as_str());
    proof {
        assert(text::lower_seq(raw@) == e@);
    }
    if is_word(&e, "jpg") {
        Ok("jpg")
    } else if is_word(&e, "jpeg") {
        Ok("jpeg")
    } else if is_word(&e, "png") {
        Ok("png")
    } else if is_word(&e, "svg") {
        Ok("svg")
    } else if is_word(&e, "bmp") {
        Ok("bmp")
    } else {
        Err(text::owned("asset type must be JPG, JPEG, PNG, SVG, or BMP"))
    }
}

/// The warning listed with a BMP asset.
pub fn asset_warning(extension: &str) -> (w: Option<&'static str>)
    ensures
        extension@ == "bmp"@ ==> (w matches Some(s) && s@
            == "BMP assets usually waste package space; prefer PNG or SVG."@),
        extension@ != "bmp"@ ==> w is None,
{
    if text::str_eq(extension, "bmp") {
        Some("BMP assets usually waste package space; prefer PNG or SVG.")
    } else {
        None
    }
}

/// What decoding with base64's standard engine (standard alphabet, padding
/// required) gives for the input: the decoded bytes, or the text of the
/// decode error.
pub uninterp spec fn base64_standard_decode(input: Seq<u8>) -> Result<Seq<u8>, Seq<char>>;

/// `base64::engine::general_purpose::STANDARD.decode`, with a failure given
/// as the text of its `DecodeError`. Its result is named
/// `base64_standard_decode`; what the bytes or the error are is not stated.
#[verifier::external_body]
fn decode_base64_standard(input: &[u8]) -> (r: Result<Vec<u8>, String>)
    ensures
        match base64_standard_decode(input@) {
            Ok(b) => r matches Ok(v) && v@ == b,
            Err(m) => r matches Err(e) && e@ == m,
        },
{
    match base64::engine::general_purpose::STANDARD.decode(input) {
        Ok(v) => Ok(v),
        Err(e) => Err(e.to_string()),
    }
}

/// The contents of an imported asset, sent as base64 text.
pub fn decode_asset_contents(contents: &[u8]) -> (r: Result<Vec<u8>, String>)
    ensures
        match base64_standard_decode(contents@) {
            Ok(b) => r matches Ok(v) && v@ == b,
            Err(m) => r matches Err(e) && e@ == "asset contents are not valid base64: "@ + m,
        },
{
    match decode_base64_standard(contents) {
        Ok(v) => Ok(v),
        Err(m) => {
            let mut e = text::owned("asset contents are not valid base64: ");
            text::push_str(&mut e, m.as_str());
            Err(e)
        },
    }
}

/// What importing an asset of the given name and base64 contents gives: the
/// cleaned name and the decoded bytes, or the first error among the name,
/// its type and the contents, in that order.
pub open spec fn asset_import_result(name: Seq<char>, contents: Seq<u8>) -> Result<
    (Seq<char>, Seq<u8>),
    Seq<char>,
> {
    match asset_name_result(name) {
        Err(m) => Err(m),
        Ok(n) => match asset_extension_result(n) {
            Err(m) => Err(m),
            Ok(_) => match base64_standard_decode(contents) {
                Ok(b) => Ok((n, b)),
                Err(m) => Err("asset contents are not valid base64: "@ + m),
            },
        },
    }
}

/// Checks an asset import: the name is cleaned, its type must be an accepted
/// image type, and the contents must be base64. Gives the file name and the
/// bytes to write under `assets/`.
pub fn import_asset_bytes(name: &str, contents: &[u8]) -> (r: Result<(String, Vec<u8>), String>)
    ensures
        match asset_import_result(name@, contents@) {
            Ok((n, b)) => r matches Ok(p) && p.0@ == n && p.1@ == b,
            Err(m) => r matches Err(e) && e@ == m,
        },
{
    let clean = sanitize_asset_name(name)?;
    match asset_extension(clean.as_str()) {
        Ok(_) => {},
        Err(e) => {
            return Err(e);
        },
    }
    let bytes = decode_asset_contents(contents)?;
    Ok((clean, bytes))
}

/// An image in the project's `assets` directory, as the asset list shows
/// it.
pub struct AssetEntry {
    pub name: String,
    pub path: String,
    pub extension: String,
    pub size: u64,
    pub warning: Option<&'static str>,
}

pub struct AssetView {
    pub name: Seq<char>,
    pub path: Seq<char>,
    pub extension: Seq<char>,
    pub size: u64,
    pub warning: Option<Seq<char>>,
}

impl View for AssetEntry {
    type V = AssetView;

    open spec fn view(&self) -> AssetView {
        AssetView {
            name: self.name@,
            path: self.path@,
            extension: self.extension@,
            size: self.size,
            warning: match self.warning {
                Some(w) => Some(w@),
                None => None,
            },
        }
    }
}

pub open spec fn asset_views(v: Seq<AssetEntry>) -> Seq<AssetView> {
    v.map_values(|a: AssetEntry| a@)
}

/// The listed asset for a file of the given name and size: only images of
/// an accepted type are listed, under `assets/`, BMP ones with a warning.
pub open spec fn asset_for(name: Seq<char>, size: u64) -> Option<AssetView> {
    match asset_extension_result(name) {
        Ok(e) => Some(
            AssetView {
                name,
                path: "assets/"@ + name,
                extension: e,
                size,
                warning: if e == "bmp"@ {
                    Some("BMP assets usually waste package space; prefer PNG or SVG."@)
                } else {
                    None
                },
            },
        ),
        Err(_) => None,
    }
}

pub open spec fn file_views(v: Seq<(String, u64)>) -> Seq<(Seq<char>, u64)> {
    v.map_values(|f: (String, u64)| (f.0@, f.1))
}

/// The assets among the given files, in the files' order.
pub open spec fn listed_assets(files: Seq<(Seq<char>, u64)>) -> Seq<AssetView>
    decreases files.len(),
{
    if files.len() == 0 {
        Seq::empty()
    } else {
        let prev = listed_assets(files.drop_last());
        match asset_for(files.last().0, files.last().1) {
            Some(a) => prev.push(a),
            None => prev,
        }
    }
}

fn asset_entry(name: &String, extension: &'static str, size: u64) -> (a: AssetEntry)
    requires
        asset_extension_result(name@) == Ok::<Seq<char>, Seq<char>>(extension@),
    ensures
        Some(a@) == asset_for(name@, size),
{
    let mut path = text::owned("assets/");
    text::push_str(&mut path, name.as_str());
    AssetEntry {
        name: name.clone(),
        path,
        extension: text::owned(extension),
        size,
        warning: asset_warning(extension),
    }
}

pub open spec fn asset_pair_view(p: (Seq<Seq<char>>, AssetEntry)) -> AssetView {
    p.1@
}

/// The assets of `v` with the given name, in their order in `v`.
pub open spec fn assets_named(v: Seq<AssetView>, name: Seq<char>) -> Seq<AssetView>
    decreases v.len(),
{
    if v.len() == 0 {
        Seq::empty()
    } else if v.last().name == name {
        assets_named(v.drop_last(), name).push(v.last())
    } else {
        assets_named(v.drop_last(), name)
    }
}

proof fn lemma_assets_named_by_key(kv: Seq<(Seq<Seq<char>>, AssetEntry)>, name: Seq<char>)
    requires
        forall|a: int| 0 <= a < kv.len() ==> #[trigger] kv[a].0 == seq![kv[a].1.name@],
    ensures
        ordering::with_key(kv, seq![name]).map_values(|p: (Seq<Seq<char>>, AssetEntry)| asset_pair_view(p))
            == assets_named(kv.map_values(|p: (Seq<Seq<char>>, AssetEntry)| asset_pair_view(p)), name),
    decreases kv.len(),
{
    let f = |p: (Seq<Seq<char>>, AssetEntry)| asset_pair_view(p);
    if kv.len() == 0 {
        assert(ordering::with_key(kv, seq![name]).map_values(f) =~= Seq::<AssetView>::empty());
    } else {
        let d = kv.drop_last();
        assert forall|a: int| 0 <= a < d.len() implies #[trigger] d[a].0 == seq![d[a].1.name@] by {
            assert(d[a] == kv[a]);
        }
        lemma_assets_named_by_key(d, name);
        assert(kv.map_values(f).drop_last() =~= d.map_values(f));
        let x = kv.last();
        assert(x == kv[kv.len() - 1]);
        assert(kv.map_values(f).last() == x.1@);
        assert((x.0 == seq![name]) == (x.1.name@ == name)) by {
            if x.0 == seq![name] {
                assert(seq![x.1.name@][0] == seq![name][0]);
            }
        }
        if x.0 == seq![name] {
            assert(ordering::with_key(d, seq![name]).push(x).map_values(f) =~= ordering::with_key(
                d,
                seq![name],
            ).map_values(f).push(x.1@));
        }
    }
}

/// The asset list of a directory, from the names and sizes of the regular
/// files in it: the images of an accepted type, sorted by name; assets with
/// the same name keep the files' order.
pub fn asset_entries(files: &Vec<(String, u64)>) -> (r: Vec<AssetEntry>)
    ensures
        asset_views(r@).to_multiset() == listed_assets(file_views(files@)).to_multiset(),
        forall|i: int, j: int|
            0 <= i < j < r@.len() ==> !ordering::chars_lt(#[trigger] r@[j].name@, #[trigger] r@[i].name@),
        forall|name: Seq<char>| #[trigger] assets_named(asset_views(r@), name) == assets_named(
            listed_assets(file_views(files@)),
            name,
        ),
{
    let ghost fv = file_views(files@);
    let mut pairs: Vec<(Vec<String>, AssetEntry)> = Vec::new();
    let mut i: usize = 0;
    while i < files.len()
        invariant
            i <= files.len(),
            fv == file_views(files@),
            ordering::keyed_views(pairs@).map_values(|p: (Seq<Seq<char>>, AssetEntry)| asset_pair_view(p))
                == listed_assets(fv.take(i as int)),
            forall|k: int| 0 <= k < pairs@.len() ==> #[trigger] text::strings_view(pairs@[k].0@) == seq![pairs@[k].1.name@],
        decreases files.len() - i,
    {
        let ghost before = pairs@;
        proof {
            assert(fv.take(i + 1).drop_last() =~= fv.take(i as int));
            assert(fv.take(i + 1).last() == fv[i as int]);
        }
        match asset_extension(files[i].0.as_str()) {
            Ok(ext) => {
                let entry = asset_entry(&files[i].0, ext, files[i].1);
                let key = vec![files[i].0.clone()];
                proof {
                    assert(text::strings_view(key@) =~= seq![entry.name@]);
                }
                pairs.push((key, entry));
                proof {
                    assert(ordering::keyed_views(pairs@).map_values(
                        |p: (Seq<Seq<char>>, AssetEntry)| asset_pair_view(p),
                    ) =~= ordering::keyed_views(before).map_values(
                        |p: (Seq<Seq<char>>, AssetEntry)| asset_pair_view(p),
                    ).push(entry@));
                    assert(forall|k: int| 0 <= k < before.len() ==> pairs@[k] == before[k]);
                }
            },
            Err(_) => {},
        }
        i += 1;
    }
    proof {
        assert(fv.take(i as int) =~= fv);
    }
    let ghost kv = ordering::keyed_views(pairs@);
    let sorted = ordering::sort_by_parts(pairs);
    let ghost s = ordering::keyed_views(sorted@);
    proof {
        ordering::lemma_map_multiset(s, kv, |p: (Seq<Seq<char>>, AssetEntry)| asset_pair_view(p));
    }
    let m = sorted.len();
    let mut left = sorted;
    let mut out: Vec<AssetEntry> = Vec::new();
    let mut j: usize = 0;
    while j < m
        invariant
            j <= m,
            m == s.len(),
            ordering::keyed_views(left@) == s.skip(j as int),
            left@.len() == m - j,
            out@ == s.take(j as int).map_values(|p: (Seq<Seq<char>>, AssetEntry)| p.1),
        decreases m - j,
    {
        let ghost lv = left@;
        let p = left.remove(0);
        proof {
            assert(p == lv[0]);
            assert(ordering::keyed_views(lv)[0] == ordering::keyed_view(p));
            assert(ordering::keyed_views(left@) =~= ordering::keyed_views(lv).remove(0));
            assert(s.skip(j as int).remove(0) =~= s.skip(j + 1));
            assert(s[j as int] == s.skip(j as int)[0]);
        }
        let ghost before = out@;
        out.push(p.1);
        proof {
            assert(s.take(j + 1) =~= s.take(j as int).push(s[j as int]));
            assert(out@ =~= s.take(j + 1).map_values(|p: (Seq<Seq<char>>, AssetEntry)| p.1));
        }
        j += 1;
    }
    proof {
        assert(s.take(m as int) =~= s);
        assert(asset_views(out@) =~= s.map_values(|p: (Seq<Seq<char>>, AssetEntry)| asset_pair_view(p)));
        assert(kv.map_values(|p: (Seq<Seq<char>>, AssetEntry)| asset_pair_view(p)) == listed_assets(fv));
        assert forall|x: (Seq<Seq<char>>, AssetEntry)| #[trigger] kv.contains(x) implies x.0 == seq![
            x.1.name@,
        ] by {
            let k = choose|k: int| 0 <= k < kv.len() && kv[k] == x;
            assert(kv[k] == ordering::keyed_view(pairs@[k]));
        }
        assert forall|a: int| 0 <= a < s.len() implies #[trigger] s[a].0 == seq![s[a].1.name@] by {
            vstd::seq_lib::to_multiset_contains(s, s[a]);
            vstd::seq_lib::to_multiset_contains(kv, s[a]);
            assert(s.contains(s[a]));
        }
        assert forall|a: int, b: int| 0 <= a < b < out@.len() implies !ordering::chars_lt(
            #[trigger] out@[b].name@,
            #[trigger] out@[a].name@,
        ) by {
            assert(!ordering::key_lt(s[b].0, s[a].0));
            assert(s[a].0 == seq![s[a].1.name@]);
            assert(s[b].0 == seq![s[b].1.name@]);
            assert(out@[a] == s[a].1);
            assert(out@[b] == s[b].1);
            assert(s[b].0.drop_first() =~= Seq::<Seq<char>>::empty());
            assert(s[a].0.drop_first() =~= Seq::<Seq<char>>::empty());
            ordering::lemma_chars_lt_irreflexive(out@[a].name@);
        }
        assert forall|a: int| 0 <= a < kv.len() implies #[trigger] kv[a].0 == seq![kv[a].1.name@] by {
            assert(kv[a] == ordering::keyed_view(pairs@[a]));
        }
        assert forall|name: Seq<char>| #[trigger] assets_named(asset_views(out@), name) == assets_named(
            listed_assets(fv),
            name,
        ) by {
            lemma_assets_named_by_key(s, name);
            lemma_assets_named_by_key(kv, name);
            assert(ordering::with_key(s, seq![name]) == ordering::with_key(kv, seq![name]));
        }
    }
    out
}

// ---------------------------------------------------------------------------
// Jobs
// ---------------------------------------------------------------------------

/// The job a request names, in any ASCII case, for the given project.
pub open spec fn job_kind_tag(kind: Seq<char>) -> Option<nat> {
    let k = text::lower_seq(kind);
    if k == "generate"@ {
        Some(0)
    } else if k == "check"@ {
        Some(1)
    } else if k == "build"@ {
        Some(2)
    } else if k == "pack"@ {
        Some(3)
    } else if k == "dist"@ {
        Some(4)
    } else if k == "auto"@ || k == "full-auto"@ {
        Some(5)
    } else {
        None
    }
}

pub fn job_kind_for_request(kind: &str, project: &str) -> (r: Result<JobKind, String>)
    ensures
        match job_kind_tag(kind@) {
            Some(tag) => r matches Ok(k) && crate::jobs::kind_view(k) == (tag, project@),
            None => r matches Err(e) && e@
                == "unknown job kind; expected generate, check, build, pack, dist, or auto"@,
        },
{
    let k = text::ascii_lowercase(kind);
    let p = text::owned(project);
    if is_word(&k, "generate") {
        Ok(JobKind::Generate { project: p })
    } else if is_word(&k, "check") {
        Ok(JobKind::Check { project: p })
    } else if is_word(&k, "build") {
        Ok(JobKind::Build { project: p })
    } else if is_word(&k, "pack") {
        Ok(JobKind::Pack { project: p })
    } else if is_word(&k, "dist") {
        Ok(JobKind::Dist { project: p })
    } else if is_word(&k, "auto") || is_word(&k, "full-auto") {
        Ok(JobKind::FullAuto { project: p })
    } else {
        Err(text::owned("unknown job kind; expected generate, check, build, pack, dist, or auto"))
    }
}

/// The runtime state the workspace reports.
pub struct RuntimeResponse {
    pub full_auto: bool,
    pub watch: bool,
    pub active_project: Option<String>,
    pub watched_project: Option<String>,
    pub build_possible: bool,
    pub current_stage: Option<JobStage>,
    pub current_status: Option<JobStatus>,
    pub current_job_id: Option<u128>,
}

/// The runtime reply: the switches and projects as given, and the stage,
/// status and id of the current job activity if there is one.
pub fn runtime_response(
    full_auto: bool,
    watch: bool,
    active_project: Option<String>,
    watched_project: Option<String>,
    build_possible: bool,
    activity: Option<JobActivity>,
) -> (r: RuntimeResponse)
    ensures
        r.full_auto == full_auto,
        r.watch == watch,
        r.active_project == active_project,
        r.watched_project == watched_project,
        r.build_possible == build_possible,
        r.current_stage == match activity {
            Some(a) => a.current_stage,
            None => None,
        },
        r.current_status == match activity {
            Some(a) => Some(a.status),
            None => None,
        },
        r.current_job_id == match activity {
            Some(a) => Some(a.job_id),
            None => None,
        },
{
    let (current_stage, current_status, current_job_id) = match &activity {
        Some(a) => (a.current_stage, Some(a.status), Some(a.job_id)),
        None => (None, None, None),
    };
    RuntimeResponse {
        full_auto,
        watch,
        active_project,
        watched_project,
        build_possible,
        current_stage,
        current_status,
        current_job_id,
    }
}


// ---------------------------------------------------------------------------
// Window names
// ---------------------------------------------------------------------------

/// The letters and digits of a requested name, each run started in upper
/// case, and whether the next one starts a run.
pub open spec fn stem_run(s: Seq<char>) -> (Seq<char>, bool)
    decreases s.len(),
{
    if s.len() == 0 {
        (Seq::empty(), true)
    } else {
        let prev = stem_run(s.drop_last());
        let c = s.last();
        if text::is_ascii_alnum(c) {
            if prev.1 {
                (prev.0.push(text::ascii_upper(c)), false)
            } else {
                (prev.0.push(c), false)
            }
        } else {
            (prev.0, true)
        }
    }
}

/// The window name a request asks for: its words run together in camel
/// case, `Window` when nothing is left, `Window` in front of a leading
/// digit, and `Window` at the end unless the name says window already.
pub open spec fn name_stem(s: Seq<char>) -> Seq<char> {
    let n0 = stem_run(s).0;
    let n1 = if n0.len() == 0 {
        "Window"@
    } else {
        n0
    };
    let n2 = if text::is_ascii_digit(n1[0]) {
        "Window"@ + n1
    } else {
        n1
    };
    if text::has_infix(text::lower_seq(n2), "window"@) {
        n2
    } else {
        n2 + "Window"@
    }
}

pub fn window_name_stem(input: &str) -> (r: String)
    ensures
        r@ == name_stem(input@),
{
    let chars = text::chars_of(input);
    let mut name: Vec<char> = Vec::new();
    let mut capitalize_next = true;
    let mut i: usize = 0;
    while i < chars.len()
        invariant
            i <= chars.len(),
            chars@ == input@,
            (name@, capitalize_next) == stem_run(chars@.take(i as int)),
        decreases chars.len() - i,
    {
        proof {
            assert(chars@.take(i + 1).drop_last() =~= chars@.take(i as int));
        }
        let ch = chars[i];
        if text::ascii_alnum(ch) {
            if capitalize_next {
                name.push(text::to_ascii_upper(ch));
                capitalize_next = false;
            } else {
                name.push(ch);
            }
        } else {
            capitalize_next = true;
        }
        i += 1;
    }
    proof {
        assert(chars@.take(i as int) =~= chars@);
        reveal_strlit("Window");
    }
    let mut n1 = if name.len() == 0 {
        text::owned("Window")
    } else {
        text::string_of(&name)
    };
    let first = n1.as_str().get_char(0);
    let n2 = if text::ascii_digit(first) {
        let mut w = text::owned("Window");
        text::push_str(&mut w, n1.as_str());
        w
    } else {
        n1
    };
    let lower = text::ascii_lowercase(n2.as_str());
    let window_word = text::chars_of("window");
    if text::contains_seq(&lower, &window_word) {
        n2
    } else {
        let mut r = n2;
        text::push_str(&mut r, "Window");
        r
    }
}

/// Whether a window already has this name, ignoring ASCII case.
pub open spec fn name_taken(ws: Seq<Ui2Window>, name: Seq<char>) -> bool {
    exists|i: int| 0 <= i < ws.len() && text::lower_seq(#[trigger] ws[i].name@) == text::lower_seq(name)
}

/// The first free name `stem<n>` from `n` up to 999, else `stem` followed by
/// one more than the number of windows.
pub open spec fn numbered_free(ws: Seq<Ui2Window>, stem: Seq<char>, n: nat) -> Seq<char>
    decreases 1000 - n,
{
    if n >= 1000 {
        stem + text::nat_decimal(ws.len() + 1)
    } else if !name_taken(ws, stem + text::nat_decimal(n)) {
        stem + text::nat_decimal(n)
    } else {
        numbered_free(ws, stem, n + 1)
    }
}

/// The name a new window gets: the stem of the request if no window has it,
/// else the first free numbered variant.
pub open spec fn unique_name(ws: Seq<Ui2Window>, requested: Seq<char>) -> Seq<char> {
    let stem = name_stem(requested);
    if !name_taken(ws, stem) {
        stem
    } else {
        numbered_free(ws, stem, 2)
    }
}

fn taken(windows: &Vec<Ui2Window>, name: &str) -> (b: bool)
    ensures
        b == name_taken(windows@, name@),
{
    let mut i: usize = 0;
    while i < windows.len()
        invariant
            i <= windows.len(),
            forall|j: int| 0 <= j < i ==> text::lower_seq(#[trigger] windows@[j].name@) != text::lower_seq(name@),
        decreases windows.len() - i,
    {
        if text::eq_ignore_ascii_case(windows[i].name.as_str(), name) {
            return true;
        }
        i += 1;
    }
    false
}

pub fn unique_window_name(project: &RadsProject, requested: &str) -> (r: String)
    ensures
        r@ == unique_name(project.windows@, requested@),
{
    let stem = window_name_stem(requested);
    if !taken(&project.windows, stem.as_str()) {
        return stem;
    }
    let mut index: u64 = 2;
    while index < 1000
        invariant
            2 <= index <= 1000,
            stem@ == name_stem(requested@),
            name_taken(project.windows@, stem@),
            numbered_free(project.windows@, stem@, 2) == numbered_free(project.windows@, stem@, index as nat),
        decreases 1000 - index,
    {
        let mut candidate = stem.clone();
        text::push_u64(&mut candidate, index);
        if !taken(&project.windows, candidate.as_str()) {
            return candidate;
        }
        index += 1;
    }
    let mut r = stem;
    text::push_u128(&mut r, project.windows.len() as u128 + 1);
    r
}

// ---------------------------------------------------------------------------
// New windows
// ---------------------------------------------------------------------------

/// A caption or name that says something: not blank.
pub open spec fn given(o: Option<String>) -> Option<Seq<char>> {
    match o {
        Some(s) => if text::trim_seq(s@).len() > 0 {
            Some(s@)
        } else {
            None
        },
        None => None,
    }
}

/// The markup of a new window.
pub open spec fn new_window_html(caption: Seq<char>, name: Seq<char>) -> Seq<char> {
    "<!doctype html>\n<html lang=\"en\">\n<head>\n  <meta charset=\"utf-8\">\n  <meta name=\"viewport\" content=\"width=device-width, initial-scale=1\">\n  <title>"@
        + templates::html_text_escaped(caption) + "</title>\n  <link rel=\"stylesheet\" href=\""@
        + model::spec_slugify(name) + ".css\">\n</head>\n<body>\n  <main class=\"ui2-window\">\n    <h1>"@
        + templates::html_text_escaped(caption)
        + "</h1>\n    <p>Design this UI2 window in RADS.</p>\n  </main>\n</body>\n</html>\n"@
}

/// The stylesheet of a new window.
pub open spec fn new_window_css() -> Seq<char> {
    "html,\nbody {\n  margin: 0;\n  min-height: 100%;\n  font-family: system-ui, \"Twitter Color Emoji\", \"Twemoji Mozilla\", sans-serif;\n  background: #f4f7f8;\n  color: #182024;\n}\n\n.ui2-window {\n  display: grid;\n  gap: 12px;\n  padding: 28px;\n}\n"@
}

/// The window added to a project with `n` windows, for the requested name
/// and caption: caption `Window <n+1>` and name from the caption unless
/// given, a unique name, placed 28 pixels further down and right per
/// existing window up to 160, 680x420, with its own markup and styles.
pub open spec fn is_new_window(
    w: Ui2Window,
    ws: Seq<Ui2Window>,
    name: Option<String>,
    caption: Option<String>,
) -> bool {
    let cap = match given(caption) {
        Some(c) => c,
        None => "Window "@ + text::nat_decimal(ws.len() + 1),
    };
    let requested = match given(name) {
        Some(n) => n,
        None => cap,
    };
    let offset: int = if ws.len() * 28 < 160 {
        (ws.len() * 28) as int
    } else {
        160
    };
    &&& w.name@ == unique_name(ws, requested)
    &&& w.caption@ == cap
    &&& w.title_twemoji is None
    &&& w.geometry == Rect { x: (96 + offset) as i32, y: (96 + offset) as i32, w: 680, h: 420 }
    &&& w.decorations == model::default_decorations()
    &&& w.options == ui2_options::default_window_options()
    &&& w.controls@.len() == 0
    &&& w.ui_description.html@ == new_window_html(cap, w.name@)
    &&& w.ui_description.css@ == new_window_css()
}

fn nonblank(o: Option<String>) -> (r: Option<String>)
    ensures
        match given(o) {
            Some(s) => r matches Some(x) && x@ == s,
            None => r is None,
        },
{
    match o {
        Some(s) => {
            let chars = text::chars_of(s.as_str());
            if text::trim_chars(&chars).len() > 0 {
                Some(s)
            } else {
                None
            }
        },
        None => None,
    }
}

fn new_window_markup(caption: &str, name: &str) -> (r: String)
    ensures
        r@ == new_window_html(caption@, name@),
{
    let escaped = escape_html_text(caption);
    let slug = model::slugify(name);
    let mut r = text::owned(
        "<!doctype html>\n<html lang=\"en\">\n<head>\n  <meta charset=\"utf-8\">\n  <meta name=\"viewport\" content=\"width=device-width, initial-scale=1\">\n  <title>",
    );
    text::push_str(&mut r, escaped.as_str());
    text::push_str(&mut r, "</title>\n  <link rel=\"stylesheet\" href=\"");
    text::push_str(&mut r, slug.as_str());
    text::push_str(
        &mut r,
        ".css\">\n</head>\n<body>\n  <main class=\"ui2-window\">\n    <h1>",
    );
    text::push_str(&mut r, escaped.as_str());
    text::push_str(&mut r, "</h1>\n    <p>Design this UI2 window in RADS.</p>\n  </main>\n</body>\n</html>\n");
    r
}

/// The window a new-window request adds to a project, or the error for an
/// app without UI2 windows.
pub fn new_window(project: &RadsProject, name: Option<String>, caption: Option<String>) -> (r: Result<
    Ui2Window,
    String,
>)
    ensures
        project.app_kind != AppKind::Ui2 ==> (r matches Err(e) && e@
            == "only UI2 apps can create UI2 windows"@),
        project.app_kind == AppKind::Ui2 ==> (r matches Ok(w) && is_new_window(
            w,
            project.windows@,
            name,
            caption,
        )),
{
    if !project.app_kind.has_ui2() {
        return Err(text::owned("only UI2 apps can create UI2 windows"));
    }
    let count = project.windows.len();
    let cap = match nonblank(caption) {
        Some(c) => c,
        None => {
            let mut c = text::owned("Window ");
            text::push_u128(&mut c, count as u128 + 1);
            c
        },
    };
    let requested = match nonblank(name) {
        Some(n) => n,
        None => cap.clone(),
    };
    let unique = unique_window_name(project, requested.as_str());
    let offset: i32 = if count < 6 {
        (count as i32) * 28
    } else {
        160
    };
    let mut window = Ui2Window::named_window(
        unique.as_str(),
        cap.as_str(),
        96 + offset,
        96 + offset,
        680,
        420,
    );
    let html = new_window_markup(window.caption.as_str(), window.name.as_str());
    let css = text::owned(
        "html,\nbody {\n  margin: 0;\n  min-height: 100%;\n  font-family: system-ui, \"Twitter Color Emoji\", \"Twemoji Mozilla\", sans-serif;\n  background: #f4f7f8;\n  color: #182024;\n}\n\n.ui2-window {\n  display: grid;\n  gap: 12px;\n  padding: 28px;\n}\n",
    );
    window.ui_description = Ui2HtmlCssDescription { html, css };
    Ok(window)
}


// ---------------------------------------------------------------------------
// Window properties
// ---------------------------------------------------------------------------

/// Which window setting a property key names.
#[derive(Debug, Clone, Copy, PartialEq, Eq, Structural)]
pub enum WindowKey {
    Name,
    Caption,
    TitleIcon,
    X,
    Y,
    Width,
    Height,
    Titlebar,
    Close,
    Minimize,
    Maximize,
    Resizable,
    AlwaysOnTop,
    Unknown,
}

/// A property key with underscores as dashes, in ASCII lower case.
pub open spec fn normalized_key(k: Seq<char>) -> Seq<char> {
    text::lower_seq(k.map_values(|c: char| if c == '_' { '-' } else { c }))
}

pub open spec fn window_key_of(k: Seq<char>) -> WindowKey {
    if k == "name"@ {
        WindowKey::Name
    } else if k == "caption"@ {
        WindowKey::Caption
    } else if k == "title-twemoji"@ || k == "title-icon"@ || k == "twemoji"@ {
        WindowKey::TitleIcon
    } else if k == "x"@ || k == "geometry.x"@ {
        WindowKey::X
    } else if k == "y"@ || k == "geometry.y"@ {
        WindowKey::Y
    } else if k == "w"@ || k == "width"@ || k == "geometry.w"@ || k == "geometry.width"@ {
        WindowKey::Width
    } else if k == "h"@ || k == "height"@ || k == "geometry.h"@ || k == "geometry.height"@ {
        WindowKey::Height
    } else if k == "titlebar"@ || k == "decorations.titlebar"@ {
        WindowKey::Titlebar
    } else if k == "close"@ || k == "decorations.close"@ {
        WindowKey::Close
    } else if k == "minimize"@ || k == "decorations.minimize"@ {
        WindowKey::Minimize
    } else if k == "maximize"@ || k == "decorations.maximize"@ {
        WindowKey::Maximize
    } else if k == "resizable"@ || k == "decorations.resizable"@ {
        WindowKey::Resizable
    } else if k == "always-on-top"@ || k == "decorations.always-on-top"@ {
        WindowKey::AlwaysOnTop
    } else {
        WindowKey::Unknown
    }
}

/// The setting a property key names.
pub fn window_key(key: &str) -> (k: WindowKey)
    ensures
        k == window_key_of(normalized_key(key@)),
{
    let chars = text::chars_of(key);
    let mut dashed: Vec<char> = Vec::new();
    let mut i: usize = 0;
    while i < chars.len()
        invariant
            i <= chars.len(),
            chars@ == key@,
            dashed@ == chars@.take(i as int).map_values(|c: char| if c == '_' { '-' } else { c }),
        decreases chars.len() - i,
    {
        dashed.push(if chars[i] == '_' { '-' } else { chars[i] });
        proof {
            assert(dashed@ =~= chars@.take(i + 1).map_values(|c: char| if c == '_' { '-' } else { c }));
        }
        i += 1;
    }
    proof {
        assert(chars@.take(i as int) =~= chars@);
    }
    let d = text::string_of(&dashed);
    let k = text::ascii_lowercase(d.as_str());
    if is_word(&k, "name") {
        WindowKey::Name
    } else if is_word(&k, "caption") {
        WindowKey::Caption
    } else if is_word(&k, "title-twemoji") || is_word(&k, "title-icon") || is_word(&k, "twemoji") {
        WindowKey::TitleIcon
    } else if is_word(&k, "x") || is_word(&k, "geometry.x") {
        WindowKey::X
    } else if is_word(&k, "y") || is_word(&k, "geometry.y") {
        WindowKey::Y
    } else if is_word(&k, "w") || is_word(&k, "width") || is_word(&k, "geometry.w") || is_word(
        &k,
        "geometry.width",
    ) {
        WindowKey::Width
    } else if is_word(&k, "h") || is_word(&k, "height") || is_word(&k, "geometry.h") || is_word(
        &k,
        "geometry.height",
    ) {
        WindowKey::Height
    } else if is_word(&k, "titlebar") || is_word(&k, "decorations.titlebar") {
        WindowKey::Titlebar
    } else if is_word(&k, "close") || is_word(&k, "decorations.close") {
        WindowKey::Close
    } else if is_word(&k, "minimize") || is_word(&k, "decorations.minimize") {
        WindowKey::Minimize
    } else if is_word(&k, "maximize") || is_word(&k, "decorations.maximize") {
        WindowKey::Maximize
    } else if is_word(&k, "resizable") || is_word(&k, "decorations.resizable") {
        WindowKey::Resizable
    } else if is_word(&k, "always-on-top") || is_word(&k, "decorations.always-on-top") {
        WindowKey::AlwaysOnTop
    } else {
        WindowKey::Unknown
    }
}

pub open spec fn int_error(key: Seq<char>, value: Seq<char>) -> Seq<char> {
    "invalid integer for `"@ + key + "`: "@ + text::i32_parse_error(value)
}

pub open spec fn uint_error(key: Seq<char>, value: Seq<char>) -> Seq<char> {
    "invalid unsigned integer for `"@ + key + "`: "@ + text::u32_parse_error(value)
}

pub open spec fn bool_error(key: Seq<char>, value: Seq<char>) -> Seq<char> {
    "invalid boolean for `"@ + key + "`: "@ + value
}

pub open spec fn fits_i32(o: Option<int>) -> bool {
    o is Some && i32::MIN <= o->Some_0 <= i32::MAX
}

pub open spec fn fits_u32(o: Option<int>) -> bool {
    o is Some && 0 <= o->Some_0 <= u32::MAX
}

/// The geometry after a geometry property, or the error it stops with.
pub open spec fn geometry_result(g: Rect, key: WindowKey, k: Seq<char>, v: Seq<char>) -> Result<
    Rect,
    Seq<char>,
> {
    match key {
        WindowKey::X => if fits_i32(text::signed_decimal(v)) {
            Ok(Rect { x: text::signed_decimal(v)->Some_0 as i32, ..g })
        } else {
            Err(int_error(k, v))
        },
        WindowKey::Y => if fits_i32(text::signed_decimal(v)) {
            Ok(Rect { y: text::signed_decimal(v)->Some_0 as i32, ..g })
        } else {
            Err(int_error(k, v))
        },
        WindowKey::Width => if fits_u32(text::unsigned_decimal(v)) {
            Ok(Rect { w: text::unsigned_decimal(v)->Some_0 as u32, ..g })
        } else {
            Err(uint_error(k, v))
        },
        _ => if fits_u32(text::unsigned_decimal(v)) {
            Ok(Rect { h: text::unsigned_decimal(v)->Some_0 as u32, ..g })
        } else {
            Err(uint_error(k, v))
        },
    }
}

/// The decorations after a decoration switch, or the error it stops with.
pub open spec fn decoration_result(
    d: WindowDecorations,
    key: WindowKey,
    k: Seq<char>,
    v: Seq<char>,
) -> Result<WindowDecorations, Seq<char>> {
    match bool_value(v) {
        None => Err(bool_error(k, v)),
        Some(b) => Ok(
            match key {
                WindowKey::Titlebar => WindowDecorations { titlebar: b, ..d },
                WindowKey::Close => WindowDecorations { close: b, ..d },
                WindowKey::Minimize => WindowDecorations { minimize: b, ..d },
                WindowKey::Maximize => WindowDecorations { maximize: b, ..d },
                WindowKey::Resizable => WindowDecorations { resizable: b, ..d },
                _ => WindowDecorations { always_on_top: b, ..d },
            },
        ),
    }
}

/// The window after one property, or the error it stops with: the name or
/// caption take the value; the title icon takes it unless it is blank;
/// geometry takes the parsed number; a decoration switch the parsed
/// boolean; an unknown key is refused.
pub open spec fn applied_property(w: Ui2Window, p: Property) -> Result<Ui2Window, Seq<char>> {
    let key = window_key_of(normalized_key(p.key@));
    match key {
        WindowKey::Name => Ok(Ui2Window { name: p.value, ..w }),
        WindowKey::Caption => Ok(Ui2Window { caption: p.value, ..w }),
        WindowKey::TitleIcon => Ok(
            Ui2Window {
                title_twemoji: if text::trim_seq(p.value@).len() > 0 {
                    Some(p.value)
                } else {
                    None
                },
                ..w
            },
        ),
        WindowKey::X | WindowKey::Y | WindowKey::Width | WindowKey::Height => match geometry_result(
            w.geometry,
            key,
            p.key@,
            p.value@,
        ) {
            Ok(g) => Ok(Ui2Window { geometry: g, ..w }),
            Err(e) => Err(e),
        },
        WindowKey::Unknown => Err("unknown window property `"@ + p.key@ + "`"@),
        _ => match decoration_result(w.decorations, key, p.key@, p.value@) {
            Ok(d) => Ok(Ui2Window { decorations: d, ..w }),
            Err(e) => Err(e),
        },
    }
}

fn geometry_update(g: Rect, key: WindowKey, k: &str, v: &str) -> (r: Result<Rect, String>)
    requires
        key == WindowKey::X || key == WindowKey::Y || key == WindowKey::Width || key
            == WindowKey::Height,
    ensures
        match geometry_result(g, key, k@, v@) {
            Ok(n) => r == Ok::<Rect, String>(n),
            Err(m) => r matches Err(e) && e@ == m,
        },
{
    match key {
        WindowKey::X => match parse_i32(k, v) {
            Ok(n) => Ok(Rect { x: n, ..g }),
            Err(e) => Err(e),
        },
        WindowKey::Y => match parse_i32(k, v) {
            Ok(n) => Ok(Rect { y: n, ..g }),
            Err(e) => Err(e),
        },
        WindowKey::Width => match parse_u32(k, v) {
            Ok(n) => Ok(Rect { w: n, ..g }),
            Err(e) => Err(e),
        },
        _ => match parse_u32(k, v) {
            Ok(n) => Ok(Rect { h: n, ..g }),
            Err(e) => Err(e),
        },
    }
}

fn decoration_update(d: WindowDecorations, key: WindowKey, k: &str, v: &str) -> (r: Result<
    WindowDecorations,
    String,
>)
    ensures
        match decoration_result(d, key, k@, v@) {
            Ok(n) => r == Ok::<WindowDecorations, String>(n),
            Err(m) => r matches Err(e) && e@ == m,
        },
{
    match parse_bool(k, v) {
        Err(e) => Err(e),
        Ok(b) => Ok(
            match key {
                WindowKey::Titlebar => WindowDecorations { titlebar: b, ..d },
                WindowKey::Close => WindowDecorations { close: b, ..d },
                WindowKey::Minimize => WindowDecorations { minimize: b, ..d },
                WindowKey::Maximize => WindowDecorations { maximize: b, ..d },
                WindowKey::Resizable => WindowDecorations { resizable: b, ..d },
                _ => WindowDecorations { always_on_top: b, ..d },
            },
        ),
    }
}

/// Applies one `key=value` property to a window. On an error the window is
/// left as it was.
pub fn apply_window_property(window: &mut Ui2Window, property: Property) -> (r: Result<(), String>)
    ensures
        match applied_property(*old(window), property) {
            Ok(w) => r is Ok && *final(window) == w,
            Err(m) => r matches Err(e) && e@ == m && *final(window) == *old(window),
        },
{
    let key = window_key(property.key.as_str());
    match key {
        WindowKey::Name => {
            window.name = property.value;
            Ok(())
        },
        WindowKey::Caption => {
            window.caption = property.value;
            Ok(())
        },
        WindowKey::TitleIcon => {
            let chars = text::chars_of(property.value.as_str());
            if text::trim_chars(&chars).len() > 0 {
                window.title_twemoji = Some(property.value);
            } else {
                window.title_twemoji = None;
            }
            Ok(())
        },
        WindowKey::X | WindowKey::Y | WindowKey::Width | WindowKey::Height => {
            match geometry_update(window.geometry, key, property.key.as_str(), property.value.as_str()) {
                Ok(g) => {
                    window.geometry = g;
                    Ok(())
                },
                Err(e) => Err(e),
            }
        },
        WindowKey::Unknown => {
            let mut e = text::owned("unknown window property `");
            text::push_str(&mut e, property.key.as_str());
            text::push_str(&mut e, "`");
            Err(e)
        },
        _ => {
            match decoration_update(window.decorations, key, property.key.as_str(), property.value.as_str()) {
                Ok(d) => {
                    window.decorations = d;
                    Ok(())
                },
                Err(e) => Err(e),
            }
        },
    }
}


// ---------------------------------------------------------------------------
// Window, control and description updates
// ---------------------------------------------------------------------------

/// A request to change a window: a whole replacement (its name, caption,
/// icon, geometry, decorations and controls are taken), single fields, and
/// `key=value` properties applied in order.
pub struct UpdateWindowRequest {
    pub window_id: u128,
    pub window: Option<Ui2Window>,
    pub name: Option<String>,
    pub caption: Option<String>,
    pub geometry: Option<Rect>,
    pub decorations: Option<WindowDecorations>,
    pub properties: Vec<Property>,
}

/// A window taking the name, caption, icon, geometry, decorations and
/// controls of a replacement.
pub open spec fn with_replacement(w: Ui2Window, replacement: Option<Ui2Window>) -> Ui2Window {
    match replacement {
        Some(p) => Ui2Window {
            name: p.name,
            caption: p.caption,
            title_twemoji: p.title_twemoji,
            geometry: p.geometry,
            decorations: p.decorations,
            controls: p.controls,
            ..w
        },
        None => w,
    }
}

pub open spec fn with_name(w: Ui2Window, name: Option<String>) -> Ui2Window {
    match name {
        Some(n) => Ui2Window { name: n, ..w },
        None => w,
    }
}

pub open spec fn with_caption(w: Ui2Window, caption: Option<String>) -> Ui2Window {
    match caption {
        Some(c) => Ui2Window { caption: c, ..w },
        None => w,
    }
}

pub open spec fn with_geometry(w: Ui2Window, geometry: Option<Rect>) -> Ui2Window {
    match geometry {
        Some(g) => Ui2Window { geometry: g, ..w },
        None => w,
    }
}

pub open spec fn with_decorations(w: Ui2Window, decorations: Option<WindowDecorations>) -> Ui2Window {
    match decorations {
        Some(d) => Ui2Window { decorations: d, ..w },
        None => w,
    }
}

/// The window after a replacement and single fields, in that order.
pub open spec fn patched_fields(
    w: Ui2Window,
    replacement: Option<Ui2Window>,
    name: Option<String>,
    caption: Option<String>,
    geometry: Option<Rect>,
    decorations: Option<WindowDecorations>,
) -> Ui2Window {
    with_decorations(
        with_geometry(with_caption(with_name(with_replacement(w, replacement), name), caption), geometry),
        decorations,
    )
}

/// The window after the replacement and single fields of a request.
pub open spec fn patched_window(w: Ui2Window, r: UpdateWindowRequest) -> Ui2Window {
    patched_fields(w, r.window, r.name, r.caption, r.geometry, r.decorations)
}

/// The window after properties applied in order, or the first error.
pub open spec fn applied_properties(w: Ui2Window, props: Seq<Property>) -> Result<Ui2Window, Seq<char>>
    decreases props.len(),
{
    if props.len() == 0 {
        Ok(w)
    } else {
        match applied_properties(w, props.drop_last()) {
            Err(e) => Err(e),
            Ok(w1) => applied_property(w1, props.last()),
        }
    }
}

fn replaced(window: Ui2Window, replacement: Option<Ui2Window>) -> (w: Ui2Window)
    ensures
        w == with_replacement(window, replacement),
{
    match replacement {
        Some(p) => Ui2Window {
            name: p.name,
            caption: p.caption,
            title_twemoji: p.title_twemoji,
            geometry: p.geometry,
            decorations: p.decorations,
            controls: p.controls,
            ..window
        },
        None => window,
    }
}

fn renamed(window: Ui2Window, name: Option<String>) -> (w: Ui2Window)
    ensures
        w == with_name(window, name),
{
    match name {
        Some(n) => Ui2Window { name: n, ..window },
        None => window,
    }
}

fn recaptioned(window: Ui2Window, caption: Option<String>) -> (w: Ui2Window)
    ensures
        w == with_caption(window, caption),
{
    match caption {
        Some(c) => Ui2Window { caption: c, ..window },
        None => window,
    }
}

fn moved(window: Ui2Window, geometry: Option<Rect>) -> (w: Ui2Window)
    ensures
        w == with_geometry(window, geometry),
{
    match geometry {
        Some(g) => Ui2Window { geometry: g, ..window },
        None => window,
    }
}

fn redecorated(window: Ui2Window, decorations: Option<WindowDecorations>) -> (w: Ui2Window)
    ensures
        w == with_decorations(window, decorations),
{
    match decorations {
        Some(d) => Ui2Window { decorations: d, ..window },
        None => window,
    }
}

proof fn lemma_applied_error_stays(w: Ui2Window, props: Seq<Property>, k: int)
    requires
        0 <= k <= props.len(),
        applied_properties(w, props.take(k)) is Err,
    ensures
        applied_properties(w, props) == applied_properties(w, props.take(k)),
    decreases props.len() - k,
{
    if k < props.len() {
        assert(props.take(k + 1).drop_last() =~= props.take(k));
        lemma_applied_error_stays(w, props, k + 1);
    } else {
        assert(props.take(k) =~= props);
    }
}

/// Applies properties to a window in order, stopping at the first error.
pub fn apply_window_properties(window: Ui2Window, properties: Vec<Property>) -> (r: Result<Ui2Window, String>)
    ensures
        match applied_properties(window, properties@) {
            Ok(w) => r matches Ok(x) && x == w,
            Err(m) => r matches Err(e) && e@ == m,
        },
{
    let ghost w0 = window;
    let ghost all = properties@;
    let mut w = window;
    let total = properties.len();
    let mut rest = properties;
    let mut i: usize = 0;
    proof {
        assert(all.skip(0) =~= all);
    }
    while rest.len() > 0
        invariant
            i <= all.len(),
            all.len() <= usize::MAX,
            rest@ == all.skip(i as int),
            applied_properties(w0, all.take(i as int)) == Ok::<Ui2Window, Seq<char>>(w),
            w0 == window,
            all == properties@,
        decreases rest.len(),
    {
        proof {
            assert(all.take(i + 1).drop_last() =~= all.take(i as int));
            assert(rest@[0] == all[i as int]);
        }
        let p = rest.remove(0);
        let ghost gp = p;
        let ghost before = w;
        match apply_window_property(&mut w, p) {
            Ok(()) => {},
            Err(e) => {
                proof {
                    assert(all.take(i + 1).last() == gp);
                    assert(applied_properties(w0, all.take(i + 1)) == applied_property(before, gp));
                    lemma_applied_error_stays(w0, all, (i + 1) as int);
                    assert(applied_property(before, gp) is Err);
                    assert(applied_properties(w0, all) == Err::<Ui2Window, Seq<char>>(e@));
                    assert(w0 == window);
                    assert(all == properties@);
                }
                return Err(e);
            },
        }
        proof {
            assert(all.take(i + 1).last() == gp);
            assert(rest@ =~= all.skip(i + 1));
        }
        i += 1;
    }
    proof {
        assert(all.take(i as int) =~= all);
    }
    Ok(w)
}

/// Applies a window update request to a window: the replacement and single
/// fields first, then each property in order, stopping at the first error.
pub fn apply_window_update(window: Ui2Window, request: UpdateWindowRequest) -> (r: Result<
    Ui2Window,
    String,
>)
    ensures
        match applied_properties(patched_window(window, request), request.properties@) {
            Ok(w) => r matches Ok(x) && x == w,
            Err(m) => r matches Err(e) && e@ == m,
        },
{
    let UpdateWindowRequest { window_id: _, window: replacement, name, caption, geometry, decorations, properties } = request;
    let w = redecorated(
        moved(recaptioned(renamed(replaced(window, replacement), name), caption), geometry),
        decorations,
    );
    apply_window_properties(w, properties)
}

/// The position of the first window with the given id.
pub fn window_position(windows: &Vec<Ui2Window>, id: u128) -> (r: Option<usize>)
    ensures
        match r {
            Some(i) => i < windows@.len() && windows@[i as int].id == id && forall|j: int|
                0 <= j < i ==> (#[trigger] windows@[j]).id != id,
            None => forall|j: int| 0 <= j < windows@.len() ==> (#[trigger] windows@[j]).id != id,
        },
{
    let mut i: usize = 0;
    while i < windows.len()
        invariant
            i <= windows.len(),
            forall|j: int| 0 <= j < i ==> (#[trigger] windows@[j]).id != id,
        decreases windows.len() - i,
    {
        if windows[i].id == id {
            return Some(i);
        }
        i += 1;
    }
    None
}

/// A request to change a control: a whole replacement, or the fields the
/// designer's update takes.
pub struct UpdateControlRequest {
    pub window_id: u128,
    pub control_id: u128,
    pub control: Option<Ui2Control>,
    pub name: Option<String>,
    pub caption: Option<String>,
    pub geometry: Option<Rect>,
    pub properties: Option<Vec<Property>>,
    pub events: Option<Vec<EventBinding>>,
}

/// Applies a control update to a window: a replacement takes the place of
/// the first control with the id; otherwise the designer's update applies.
/// Gives the window, or `control not found`.
pub fn apply_control_update(window: Ui2Window, request: UpdateControlRequest) -> (r: Result<
    Ui2Window,
    String,
>)
    ensures
        !designer::has_control(window.controls@, request.control_id) ==> (r matches Err(e) && e@
            == "control not found"@),
        request.control is Some && designer::has_control(window.controls@, request.control_id)
            ==> exists|i: int|
            {
                &&& designer::first_control_at(window.controls@, request.control_id, i)
                &&& r matches Ok(w) && designer::same_but_controls(w, window) && w.controls@
                    == window.controls@.update(i, request.control->Some_0)
            },
        request.control is None && window.id == request.window_id && designer::has_control(
            window.controls@,
            request.control_id,
        ) ==> exists|i: int|
            {
                &&& designer::first_control_at(window.controls@, request.control_id, i)
                &&& r matches Ok(w) && designer::only_control_changed(w, window, i)
                    && designer::is_updated_control(
                    w.controls@[i],
                    window.controls@[i],
                    designer::UpdateControlRequest {
                        window_id: request.window_id,
                        control_id: request.control_id,
                        name: request.name,
                        caption: request.caption,
                        geometry: request.geometry,
                        properties: request.properties,
                        events: request.events,
                    },
                )
            },
        request.control is None && window.id != request.window_id ==> (r matches Err(e) && e@
            == "control not found"@),
{
    let UpdateControlRequest { window_id, control_id, control, name, caption, geometry, properties, events } = request;
    let mut w = window;
    match control {
        Some(patch) => {
            match designer::find_control(&w.controls, control_id) {
                Some(i) => {
                    let ghost before = w.controls@;
                    w.controls.remove(i);
                    w.controls.insert(i, patch);
                    proof {
                        assert(w.controls@ =~= before.update(i as int, patch));
                    }
                    Ok(w)
                },
                None => Err(text::owned("control not found")),
            }
        },
        None => {
            let updated = designer::update_control(
                &mut w,
                designer::UpdateControlRequest { window_id, control_id, name, caption, geometry, properties, events },
            );
            if updated {
                Ok(w)
            } else {
                Err(text::owned("control not found"))
            }
        },
    }
}

/// The controls of a window without those with the given id.
pub open spec fn without_control(cs: Seq<Ui2Control>, id: u128) -> Seq<Ui2Control>
    decreases cs.len(),
{
    if cs.len() == 0 {
        cs
    } else if cs.last().id == id {
        without_control(cs.drop_last(), id)
    } else {
        without_control(cs.drop_last(), id).push(cs.last())
    }
}

pub open spec fn has_control_anywhere(ws: Seq<Ui2Window>, id: u128) -> bool {
    exists|i: int| 0 <= i < ws.len() && designer::has_control(#[trigger] ws[i].controls@, id)
}

/// Two projects agree on everything but their windows.
pub open spec fn same_but_windows(a: RadsProject, b: RadsProject) -> bool {
    &&& a.id == b.id
    &&& a.name == b.name
    &&& a.slug == b.slug
    &&& a.root == b.root
    &&& a.app_kind == b.app_kind
    &&& a.blueprint == b.blueprint
    &&& a.package == b.package
}

fn without_control_in(controls: Vec<Ui2Control>, id: u128) -> (r: (Vec<Ui2Control>, bool))
    ensures
        r.0@ == without_control(controls@, id),
        r.1 == designer::has_control(controls@, id),
{
    let ghost all = controls@;
    let total = controls.len();
    let mut rest = controls;
    let mut kept: Vec<Ui2Control> = Vec::new();
    let mut removed = false;
    let mut i: usize = 0;
    proof {
        assert(all.skip(0) =~= all);
    }
    while rest.len() > 0
        invariant
            i <= all.len(),
            all.len() <= usize::MAX,
            rest@ == all.skip(i as int),
            kept@ == without_control(all.take(i as int), id),
            removed == designer::has_control(all.take(i as int), id),
        decreases rest.len(),
    {
        proof {
            assert(all.take(i + 1).drop_last() =~= all.take(i as int));
            assert(rest@[0] == all[i as int]);
        }
        let c = rest.remove(0);
        if c.id == id {
            removed = true;
            proof {
                assert(all.take(i + 1)[i as int].id == id);
            }
        } else {
            kept.push(c);
            proof {
                if designer::has_control(all.take(i + 1), id) {
                    let j = choose|j: int| 0 <= j < i + 1 && (#[trigger] all.take(i + 1)[j]).id == id;
                    assert(all.take(i as int)[j].id == id);
                }
            }
        }
        proof {
            assert(rest@ =~= all.skip(i + 1));
            if designer::has_control(all.take(i as int), id) {
                let j = choose|j: int| 0 <= j < i && (#[trigger] all.take(i as int)[j]).id == id;
                assert(all.take(i + 1)[j].id == id);
            }
        }
        i += 1;
    }
    proof {
        assert(all.take(i as int) =~= all);
    }
    (kept, removed)
}

/// Deletes every control with the given id from every window, or answers
/// `control not found` when no window has one.
pub fn delete_control(project: RadsProject, control_id: u128) -> (r: Result<RadsProject, String>)
    ensures
        !has_control_anywhere(project.windows@, control_id) ==> (r matches Err(e) && e@
            == "control not found"@),
        has_control_anywhere(project.windows@, control_id) ==> (r matches Ok(p) && same_but_windows(
            p,
            project,
        ) && p.windows@.len() == project.windows@.len() && forall|i: int|
            0 <= i < p.windows@.len() ==> designer::same_but_controls(
                #[trigger] p.windows@[i],
                project.windows@[i],
            ) && p.windows@[i].controls@ == without_control(project.windows@[i].controls@, control_id)),
{
    let ghost orig = project;
    let RadsProject { id, name, slug, root, app_kind, blueprint, package, windows } = project;
    let ghost all = windows@;
    let total = windows.len();
    let mut rest = windows;
    let mut out: Vec<Ui2Window> = Vec::new();
    let mut deleted = false;
    let mut i: usize = 0;
    proof {
        assert(all.skip(0) =~= all);
    }
    while rest.len() > 0
        invariant
            i <= all.len(),
            all.len() <= usize::MAX,
            rest@ == all.skip(i as int),
            out@.len() == i,
            forall|j: int|
                0 <= j < i ==> designer::same_but_controls(#[trigger] out@[j], all[j])
                    && out@[j].controls@ == without_control(all[j].controls@, control_id),
            deleted == has_control_anywhere(all.take(i as int), control_id),
        decreases rest.len(),
    {
        proof {
            assert(rest@[0] == all[i as int]);
        }
        let mut w = rest.remove(0);
        let mut controls: Vec<Ui2Control> = Vec::new();
        std::mem::swap(&mut controls, &mut w.controls);
        let (kept, removed) = without_control_in(controls, control_id);
        w.controls = kept;
        proof {
            if has_control_anywhere(all.take(i + 1), control_id) && !removed {
                let j = choose|j: int| 0 <= j < i + 1 && designer::has_control(#[trigger] all.take(i + 1)[j].controls@, control_id);
                assert(all.take(i as int)[j] == all[j]);
            }
            if has_control_anywhere(all.take(i as int), control_id) {
                let j = choose|j: int| 0 <= j < i && designer::has_control(#[trigger] all.take(i as int)[j].controls@, control_id);
                assert(all.take(i + 1)[j] == all[j]);
            }
            if removed {
                assert(all.take(i + 1)[i as int] == all[i as int]);
            }
        }
        deleted = deleted || removed;
        out.push(w);
        proof {
            assert(rest@ =~= all.skip(i + 1));
        }
        i += 1;
    }
    proof {
        assert(all.take(i as int) =~= all);
    }
    if !deleted {
        return Err(text::owned("control not found"));
    }
    Ok(RadsProject { id, name, slug, root, app_kind, blueprint, package, windows: out })
}


/// A request to change a window's HTML/CSS description and, optionally,
/// the app's description.
pub struct UpdateUiDescriptionRequest {
    pub window_id: Option<u128>,
    pub description: Option<String>,
    pub ui_description: Option<Ui2HtmlCssDescription>,
    pub html: Option<String>,
    pub css: Option<String>,
}

pub open spec fn same_but_description(a: Ui2Window, b: Ui2Window) -> bool {
    &&& a.id == b.id
    &&& a.name == b.name
    &&& a.caption == b.caption
    &&& a.title_twemoji == b.title_twemoji
    &&& a.geometry == b.geometry
    &&& a.decorations == b.decorations
    &&& a.options == b.options
    &&& a.controls == b.controls
}

pub open spec fn same_blueprint_but_description(a: model::AppBlueprint, b: model::AppBlueprint) -> bool {
    &&& a.schema == b.schema
    &&& a.app_id == b.app_id
    &&& a.slug == b.slug
    &&& a.display_name == b.display_name
    &&& a.version == b.version
    &&& a.entrypoint == b.entrypoint
    &&& a.ui_layout == b.ui_layout
    &&& a.license == b.license
    &&& a.authors == b.authors
    &&& a.capabilities == b.capabilities
    &&& a.metadata == b.metadata
}

pub open spec fn has_window(ws: Seq<Ui2Window>, id: u128) -> bool {
    exists|j: int| 0 <= j < ws.len() && (#[trigger] ws[j]).id == id
}

pub open spec fn first_window_at(ws: Seq<Ui2Window>, id: u128, k: int) -> bool {
    &&& 0 <= k < ws.len()
    &&& ws[k].id == id
    &&& forall|j: int| 0 <= j < k ==> (#[trigger] ws[j]).id != id
}

/// The project after a description update of the window at `k`: its HTML
/// and CSS are the request's, else those of the request's description,
/// else its own; the app description is the request's if given; nothing
/// else changes.
pub open spec fn is_description_update(
    p: RadsProject,
    project: RadsProject,
    k: int,
    request: UpdateUiDescriptionRequest,
) -> bool {
    let old_w = project.windows@[k];
    let html = match request.html {
        Some(h) => h@,
        None => match request.ui_description {
            Some(d) => d.html@,
            None => old_w.ui_description.html@,
        },
    };
    let css = match request.css {
        Some(c) => c@,
        None => match request.ui_description {
            Some(d) => d.css@,
            None => old_w.ui_description.css@,
        },
    };
    &&& p.id == project.id
    &&& p.name == project.name
    &&& p.slug == project.slug
    &&& p.root == project.root
    &&& p.app_kind == project.app_kind
    &&& p.package == project.package
    &&& same_blueprint_but_description(p.blueprint, project.blueprint)
    &&& p.blueprint.description@ == match request.description {
        Some(d) => d@,
        None => project.blueprint.description@,
    }
    &&& p.windows@.len() == project.windows@.len()
    &&& forall|i: int| 0 <= i < p.windows@.len() && i != k ==> p.windows@[i] == project.windows@[i]
    &&& same_but_description(p.windows@[k], old_w)
    &&& p.windows@[k].ui_description.html@ == html
    &&& p.windows@[k].ui_description.css@ == css
}

/// Updates the HTML/CSS description of the window with the given id (the
/// first window when no id is given) and the app description.
pub fn update_ui_description(project: RadsProject, request: UpdateUiDescriptionRequest) -> (r: Result<
    RadsProject,
    String,
>)
    ensures
        match request.window_id {
            Some(id) => if has_window(project.windows@, id) {
                exists|k: int|
                    first_window_at(project.windows@, id, k) && (r matches Ok(p)
                        && is_description_update(p, project, k, request))
            } else {
                r matches Err(e) && e@ == "window not found"@
            },
            None => if project.windows@.len() > 0 {
                r matches Ok(p) && is_description_update(p, project, 0, request)
            } else {
                r matches Err(e) && e@ == "project has no windows"@
            },
        },
{
    let ghost req = request;
    let ghost orig = project;
    let k = match request.window_id {
        Some(id) => match window_position(&project.windows, id) {
            Some(k) => k,
            None => {
                return Err(text::owned("window not found"));
            },
        },
        None => {
            if project.windows.len() == 0 {
                return Err(text::owned("project has no windows"));
            }
            0
        },
    };
    let UpdateUiDescriptionRequest { window_id: _, description: summary, ui_description, html, css } = request;
    let RadsProject { id, name, slug, root, app_kind, mut blueprint, package, mut windows } = project;
    let mut window = windows.remove(k);
    let mut description = match ui_description {
        Some(d) => d,
        None => window.ui_description.duplicate(),
    };
    match html {
        Some(h) => {
            description.html = h;
        },
        None => {},
    }
    match css {
        Some(c) => {
            description.css = c;
        },
        None => {},
    }
    window.ui_description = description;
    windows.insert(k, window);
    match summary {
        Some(s) => {
            blueprint.description = s;
        },
        None => {},
    }
    let p = RadsProject { id, name, slug, root, app_kind, blueprint, package, windows };
    proof {
        assert forall|i: int| 0 <= i < p.windows@.len() && i != k implies p.windows@[i] == orig.windows@[i] by {
            if i < k {
                assert(p.windows@[i] == orig.windows@[i]);
            } else {
                assert(p.windows@[i] == orig.windows@[i]);
            }
        }
        assert(is_description_update(p, orig, k as int, req));
        match req.window_id {
            Some(wid) => {
                assert(first_window_at(orig.windows@, wid, k as int));
                assert(orig.windows@[k as int].id == wid);
                assert(has_window(orig.windows@, wid));
            },
            None => {},
        }
    }
    Ok(p)
}

} // verus!
