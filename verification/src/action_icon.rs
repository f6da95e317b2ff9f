//! Custom SVG icons of quick actions: standalone SVG documents without
//! active or external content.

use vstd::prelude::*;
use vstd::string::StringExecFns;
use crate::drag_html::matches_at;
use crate::drop_encoding::{find_seq, find_seq_exec, matches_at_exec};
use crate::quick_action::QuickAction;
use crate::text::{byte_len, chars_equal, chars_of, lemma_trim_idempotent, lower_chars, lower_seq, push_chars, range_byte_len, string_from_chars, strings_view, trim, trim_chars};

verus! {

/// Largest custom icon, in bytes.
pub const MAX_ICON_SVG_BYTES: usize = 16 * 1024;

/// An attribute of a parsed element: local name, value and namespace URI.
#[derive(Debug)]
pub struct SvgAttribute {
    pub name: String,
    pub value: String,
    pub namespace: Option<String>,
}

/// A node of a parsed document: whether it is an element, and the local tag
/// name and attributes of an element.
#[derive(Debug)]
pub struct SvgNode {
    pub is_element: bool,
    pub name: String,
    pub attributes: Vec<SvgAttribute>,
}

/// A parsed document: its root element's local name and all its nodes in
/// document order.
#[derive(Debug)]
pub struct SvgDocument {
    pub root_name: String,
    pub nodes: Vec<SvgNode>,
}

pub struct AttributeView {
    pub name: Seq<char>,
    pub value: Seq<char>,
    pub namespace: Option<Seq<char>>,
}

pub struct NodeView {
    pub is_element: bool,
    pub name: Seq<char>,
    pub attributes: Seq<AttributeView>,
}

pub struct DocumentView {
    pub root_name: Seq<char>,
    pub nodes: Seq<NodeView>,
}

pub open spec fn attribute_view(a: SvgAttribute) -> AttributeView {
    AttributeView {
        name: a.name@,
        value: a.value@,
        namespace: match a.namespace {
            Some(n) => Some(n@),
            None => None,
        },
    }
}

pub open spec fn node_view(n: SvgNode) -> NodeView {
    NodeView {
        is_element: n.is_element,
        name: n.name@,
        attributes: n.attributes@.map_values(|a: SvgAttribute| attribute_view(a)),
    }
}

pub open spec fn document_view(d: SvgDocument) -> DocumentView {
    DocumentView { root_name: d.root_name@, nodes: d.nodes@.map_values(|n: SvgNode| node_view(n)) }
}

/// What `roxmltree` parses of `text`, or the text of its error.
pub uninterp spec fn svg_document(text: Seq<char>) -> Result<DocumentView, Seq<char>>;

/// Parses `text` with `roxmltree::Document::parse` and lists
/// `Document::descendants` with their kinds, local tag names and attributes
/// (`Attribute::name`, `value`, `namespace`). Claimed: the result is a
/// function of `text` (`svg_document`).
#[verifier::external_body]
fn parse_svg(text: &str) -> (r: Result<SvgDocument, String>)
    ensures
        match r {
            Ok(d) => svg_document(text@) == Ok::<DocumentView, Seq<char>>(document_view(d)),
            Err(e) => svg_document(text@) == Err::<DocumentView, Seq<char>>(e@),
        },
{
    let document = roxmltree::Document::parse(text).map_err(|error| error.to_string())?;
    let nodes = document.descendants().map(|node| SvgNode {
        is_element: node.is_element(),
        name: node.tag_name().name().to_string(),
        attributes: node.attributes().map(|a| SvgAttribute {
            name: a.name().to_string(),
            value: a.value().to_string(),
            namespace: a.namespace().map(|n| n.to_string()),
        }).collect(),
    }).collect();
    Ok(SvgDocument { root_name: document.root_element().tag_name().name().to_string(), nodes })
}

pub open spec fn contains_seq(s: Seq<char>, pat: Seq<char>) -> bool {
    find_seq(s, 0, pat) is Some
}

fn contains_exec(s: &[char], pat: &str) -> (b: bool)
    ensures
        b == contains_seq(s@, pat@),
{
    let p = chars_of(pat);
    find_seq_exec(s, 0, &p).is_some()
}

pub open spec fn forbidden_element(lower_name: Seq<char>) -> bool {
    lower_name == "script"@ || lower_name == "style"@ || lower_name == "link"@ || lower_name
        == "foreignobject"@ || lower_name == "iframe"@ || lower_name == "object"@ || lower_name
        == "embed"@ || lower_name == "image"@ || lower_name == "use"@ || lower_name == "audio"@
        || lower_name == "video"@ || lower_name == "animate"@ || lower_name == "animatemotion"@
        || lower_name == "animatetransform"@ || lower_name == "set"@
}

/// Event handlers, references, inline styles, the XLink namespace, and
/// values that reach for scripts, data or other documents.
pub open spec fn unsafe_attribute(a: AttributeView) -> bool {
    let name = lower_seq(a.name);
    let value = lower_seq(trim(a.value));
    matches_at(name, 0, "on"@) || name == "href"@ || name == "src"@ || name == "style"@ || (
    a.namespace matches Some(ns) && contains_seq(ns, "xlink"@)) || contains_seq(value, "javascript:"@)
        || contains_seq(value, "data:"@) || contains_seq(value, "http://"@) || contains_seq(
        value,
        "https://"@,
    ) || contains_seq(value, "file:"@) || (contains_seq(value, "url("@) && !contains_seq(
        value,
        "url(#"@,
    ))
}

/// Why the first unsafe attribute of `attrs` is refused.
pub open spec fn first_unsafe_attribute(attrs: Seq<AttributeView>) -> Option<Seq<char>>
    decreases attrs.len(),
{
    if attrs.len() == 0 {
        None
    } else if unsafe_attribute(attrs[0]) {
        Some("SVG icon contains an unsafe attribute: "@ + attrs[0].name)
    } else {
        first_unsafe_attribute(attrs.drop_first())
    }
}

/// Why `node` is refused, if it is.
pub open spec fn node_problem(node: NodeView) -> Option<Seq<char>> {
    if !node.is_element {
        None
    } else if forbidden_element(lower_seq(node.name)) {
        Some("SVG icon cannot contain a <"@ + node.name + "> element"@)
    } else {
        first_unsafe_attribute(node.attributes)
    }
}

/// Why the first refused node of `nodes` is refused.
pub open spec fn first_problem(nodes: Seq<NodeView>) -> Option<Seq<char>>
    decreases nodes.len(),
{
    if nodes.len() == 0 {
        None
    } else {
        match node_problem(nodes[0]) {
            Some(e) => Some(e),
            None => first_problem(nodes.drop_first()),
        }
    }
}

/// Why `svg` cannot be a custom icon, if it cannot.
pub open spec fn svg_check(svg: Seq<char>) -> Result<(), Seq<char>> {
    let t = trim(svg);
    if t.len() == 0 {
        Err("SVG icon cannot be empty"@)
    } else if byte_len(t) > MAX_ICON_SVG_BYTES {
        Err("SVG icon cannot exceed 16 KiB"@)
    } else if !matches_at(t, 0, "<svg"@) || contains_seq(t, "<!DOCTYPE"@) {
        Err("icon file must be a standalone SVG document"@)
    } else {
        match svg_document(t) {
            Err(e) => Err("invalid SVG: "@ + e),
            Ok(d) => if d.root_name != "svg"@ {
                Err("icon root element must be <svg>"@)
            } else {
                match first_problem(d.nodes) {
                    Some(e) => Err(e),
                    None => Ok(()),
                }
            },
        }
    }
}

fn attribute_unsafe(a: &SvgAttribute) -> (b: bool)
    ensures
        b == unsafe_attribute(attribute_view(*a)),
{
    let name = lower_chars(&chars_of(a.name.as_str()));
    let value = lower_chars(&trim_chars(&chars_of(a.value.as_str())));
    let xlink = match &a.namespace {
        Some(ns) => contains_exec(&chars_of(ns.as_str()), "xlink"),
        None => false,
    };
    matches_at_exec(&name, 0, &chars_of("on")) || chars_equal(&name, &chars_of("href"))
        || chars_equal(&name, &chars_of("src")) || chars_equal(&name, &chars_of("style")) || xlink
        || contains_exec(&value, "javascript:") || contains_exec(&value, "data:") || contains_exec(
        &value,
        "http://",
    ) || contains_exec(&value, "https://") || contains_exec(&value, "file:") || (contains_exec(
        &value,
        "url(",
    ) && !contains_exec(&value, "url(#"))
}

fn node_problem_exec(node: &SvgNode) -> (r: Option<String>)
    ensures
        match r {
            Some(e) => node_problem(node_view(*node)) == Some(e@),
            None => node_problem(node_view(*node)) is None,
        },
{
    if !node.is_element {
        return None;
    }
    let lower = lower_chars(&chars_of(node.name.as_str()));
    if chars_equal(&lower, &chars_of("script")) || chars_equal(&lower, &chars_of("style"))
        || chars_equal(&lower, &chars_of("link")) || chars_equal(&lower, &chars_of("foreignobject"))
        || chars_equal(&lower, &chars_of("iframe")) || chars_equal(&lower, &chars_of("object"))
        || chars_equal(&lower, &chars_of("embed")) || chars_equal(&lower, &chars_of("image"))
        || chars_equal(&lower, &chars_of("use")) || chars_equal(&lower, &chars_of("audio"))
        || chars_equal(&lower, &chars_of("video")) || chars_equal(&lower, &chars_of("animate"))
        || chars_equal(&lower, &chars_of("animatemotion")) || chars_equal(
        &lower,
        &chars_of("animatetransform"),
    ) || chars_equal(&lower, &chars_of("set")) {
        let mut message = String::from_str("SVG icon cannot contain a <");
        message.append(node.name.as_str());
        message.append("> element");
        return Some(message);
    }
    let ghost attrs = node_view(*node).attributes;
    let mut i: usize = 0;
    assert(attrs.skip(0) =~= attrs);
    while i < node.attributes.len()
        invariant
            i <= node.attributes@.len(),
            attrs == node_view(*node).attributes,
            node_problem(node_view(*node)) == first_unsafe_attribute(attrs),
            first_unsafe_attribute(attrs) == first_unsafe_attribute(attrs.skip(i as int)),
        decreases node.attributes@.len() - i,
    {
        let a = &node.attributes[i];
        assert(attrs.skip(i as int)[0] == attribute_view(*a));
        assert(attrs.skip(i as int).drop_first() =~= attrs.skip(i + 1));
        if attribute_unsafe(a) {
            let mut message = String::from_str("SVG icon contains an unsafe attribute: ");
            message.append(a.name.as_str());
            return Some(message);
        }
        i = i + 1;
    }
    None
}

/// Checks that `svg` is a standalone SVG document of at most 16 KiB without
/// scripts, styles, embedded or linked content, event handlers or external
/// references.
pub fn validate_custom_svg(svg: &str) -> (r: Result<(), String>)
    ensures
        match r {
            Ok(_) => svg_check(svg@) == Ok::<(), Seq<char>>(()),
            Err(e) => svg_check(svg@) == Err::<(), Seq<char>>(e@),
        },
{
    let t = trim_chars(&chars_of(svg));
    if t.len() == 0 {
        return Err(String::from_str("SVG icon cannot be empty"));
    }
    let n = range_byte_len(&t, 0, t.len());
    assert(t@.subrange(0, t@.len() as int) =~= t@);
    if n > MAX_ICON_SVG_BYTES as u128 {
        return Err(String::from_str("SVG icon cannot exceed 16 KiB"));
    }
    if !matches_at_exec(&t, 0, &chars_of("<svg")) || contains_exec(&t, "<!DOCTYPE") {
        return Err(String::from_str("icon file must be a standalone SVG document"));
    }
    let mut text = String::new();
    push_chars(&mut text, &t);
    let document = match parse_svg(text.as_str()) {
        Ok(d) => d,
        Err(e) => {
            let mut message = String::from_str("invalid SVG: ");
            message.append(e.as_str());
            return Err(message);
        },
    };
    if !chars_equal(&chars_of(document.root_name.as_str()), &chars_of("svg")) {
        return Err(String::from_str("icon root element must be <svg>"));
    }
    let ghost nodes = document_view(document).nodes;
    let mut i: usize = 0;
    assert(nodes.skip(0) =~= nodes);
    assert(text@ == trim(svg@));
    assert(svg_check(svg@) == match first_problem(nodes) {
        Some(e) => Err::<(), Seq<char>>(e),
        None => Ok::<(), Seq<char>>(()),
    });
    while i < document.nodes.len()
        invariant
            i <= document.nodes@.len(),
            nodes == document_view(document).nodes,
            svg_check(svg@) == match first_problem(nodes) {
                Some(e) => Err::<(), Seq<char>>(e),
                None => Ok::<(), Seq<char>>(()),
            },
            first_problem(nodes) == first_problem(nodes.skip(i as int)),
        decreases document.nodes@.len() - i,
    {
        let node = &document.nodes[i];
        assert(nodes.skip(i as int)[0] == node_view(*node));
        assert(nodes.skip(i as int).drop_first() =~= nodes.skip(i + 1));
        if let Some(e) = node_problem_exec(node) {
            return Err(e);
        }
        i = i + 1;
    }
    Ok(())
}


/// The ids of the built-in icons, in catalog order.
pub open spec fn builtin_icon_ids() -> Seq<Seq<char>> {
    seq![
        "zap"@, "folder"@, "globe"@, "terminal"@, "keyboard"@, "scroll"@, "settings"@, "play"@, "radio"@,
        "link"@, "toggle"@, "crosshair"@, "smartphone"@, "masks"@, "edit"@, "circle"@, "grip"@, "close"@,
    ]
}

/// Number of built-in icons.
pub const BUILTIN_ICON_COUNT: usize = 18;

/// The markup of icon `id`, among icons with ids `ids` and markup `markup`
/// (in the same order): that of the first icon with this id, if any.
pub open spec fn first_icon(ids: Seq<Seq<char>>, markup: Seq<Seq<char>>, id: Seq<char>) -> Option<Seq<char>>
    decreases ids.len(),
{
    if ids.len() == 0 {
        None
    } else if ids[0] == id {
        Some(markup[0])
    } else {
        first_icon(ids.drop_first(), markup.drop_first(), id)
    }
}

/// An icon id has markup exactly when it is one of the ids.
pub proof fn lemma_first_icon_found(ids: Seq<Seq<char>>, markup: Seq<Seq<char>>, id: Seq<char>)
    ensures
        first_icon(ids, markup, id) is Some <==> ids.contains(id),
    decreases ids.len(),
{
    if ids.len() > 0 {
        lemma_first_icon_found(ids.drop_first(), markup.drop_first(), id);
        if ids.drop_first().contains(id) {
            let k = choose|k: int| 0 <= k < ids.drop_first().len() && ids.drop_first()[k] == id;
            assert(ids[k + 1] == id);
        }
        if ids.contains(id) && ids[0] != id {
            let k = choose|k: int| 0 <= k < ids.len() && ids[k] == id;
            assert(ids.drop_first()[k - 1] == id);
        }
    }
}

fn builtin_icon_id(i: usize) -> (s: &'static str)
    requires
        i < BUILTIN_ICON_COUNT,
    ensures
        s@ == builtin_icon_ids()[i as int],
{
    match i {
        0 => "zap",
        1 => "folder",
        2 => "globe",
        3 => "terminal",
        4 => "keyboard",
        5 => "scroll",
        6 => "settings",
        7 => "play",
        8 => "radio",
        9 => "link",
        10 => "toggle",
        11 => "crosshair",
        12 => "smartphone",
        13 => "masks",
        14 => "edit",
        15 => "circle",
        16 => "grip",
        _ => "close",
    }
}

/// The SVG markup of the built-in icons, one for each id of
/// `builtin_icon_ids`, in that order. The markup is the content of the icon
/// files that the application ships.
pub struct IconCatalog {
    markup: Vec<String>,
}

impl IconCatalog {
    /// The markup of each built-in icon, in the order of `builtin_icon_ids`.
    pub closed spec fn markup(&self) -> Seq<Seq<char>> {
        strings_view(self.markup@)
    }

    #[verifier::type_invariant]
    closed spec fn has_every_icon(&self) -> bool {
        self.markup@.len() == BUILTIN_ICON_COUNT
    }

    /// The catalog of `markup`, one for each built-in id in order; none when
    /// their number is not that of the built-in ids.
    pub fn new(markup: Vec<String>) -> (r: Option<IconCatalog>)
        ensures
            r is Some <==> markup@.len() == BUILTIN_ICON_COUNT,
            r matches Some(c) ==> c.markup() == strings_view(markup@) && c.markup().len() == BUILTIN_ICON_COUNT,
    {
        if markup.len() != BUILTIN_ICON_COUNT {
            return None;
        }
        Some(IconCatalog { markup })
    }

    /// The markup of the first built-in icon, `zap`.
    pub fn zap(&self) -> (s: String)
        ensures
            first_icon(builtin_icon_ids(), self.markup(), "zap"@) == Some(s@),
    {
        proof {
            use_type_invariant(self);
        }
        self.markup[0].clone()
    }
}

/// The SVG markup of the built-in icon `id`: some exactly for the ids of
/// `builtin_icon_ids` (compared exactly), with that icon's markup.
pub fn builtin_svg(catalog: &IconCatalog, id: &str) -> (r: Option<String>)
    ensures
        r is Some <==> builtin_icon_ids().contains(id@),
        match r {
            Some(svg) => first_icon(builtin_icon_ids(), catalog.markup(), id@) == Some(svg@),
            None => first_icon(builtin_icon_ids(), catalog.markup(), id@) is None,
        },
{
    proof {
        use_type_invariant(catalog);
        lemma_first_icon_found(builtin_icon_ids(), catalog.markup(), id@);
    }
    let ghost ids = builtin_icon_ids();
    let ghost markup = catalog.markup();
    let wanted = chars_of(id);
    let mut i: usize = 0;
    assert(ids.skip(0) =~= ids);
    assert(markup.skip(0) =~= markup);
    while i < BUILTIN_ICON_COUNT
        invariant
            i <= BUILTIN_ICON_COUNT,
            ids == builtin_icon_ids(),
            markup == catalog.markup(),
            markup.len() == BUILTIN_ICON_COUNT,
            catalog.markup@.len() == BUILTIN_ICON_COUNT,
            wanted@ == id@,
            first_icon(ids, markup, id@) == first_icon(ids.skip(i as int), markup.skip(i as int), id@),
        decreases BUILTIN_ICON_COUNT - i,
    {
        assert(ids.skip(i as int)[0] == ids[i as int]);
        assert(markup.skip(i as int)[0] == markup[i as int]);
        assert(ids.skip(i as int).drop_first() =~= ids.skip(i + 1));
        assert(markup.skip(i as int).drop_first() =~= markup.skip(i + 1));
        if chars_equal(&chars_of(builtin_icon_id(i)), &wanted) {
            return Some(catalog.markup[i].clone());
        }
        i = i + 1;
    }
    assert(ids.skip(i as int).len() == 0);
    None
}

/// What normalizing an action with icon id `id` and markup `svg` (both
/// already trimmed) gives: the markup it ends with, or the reason it is
/// refused.
pub open spec fn normalized_icon(markup: Seq<Seq<char>>, id: Seq<char>, svg: Seq<char>) -> Result<Seq<char>, Seq<char>> {
    match first_icon(builtin_icon_ids(), markup, id) {
        Some(builtin) => Ok(builtin),
        None => if id == "custom"@ {
            match svg_check(svg) {
                Ok(_) => Ok(svg),
                Err(e) => Err(e),
            }
        } else {
            Err("select a valid SVG icon"@)
        },
    }
}

/// Normalizing is idempotent: once an action's icon id `id` and markup `svg`
/// have been normalized to markup `out`, a second normalization of the result
/// keeps the same id, gives the same markup, and so reports no change.
pub proof fn normalizing_twice_changes_nothing(markup: Seq<Seq<char>>, id: Seq<char>, svg: Seq<char>)
    requires
        normalized_icon(markup, trim(id), trim(svg)) is Ok,
    ensures
        ({
            let out = normalized_icon(markup, trim(id), trim(svg))->Ok_0;
            &&& trim(trim(id)) == trim(id)
            &&& normalized_icon(markup, trim(trim(id)), trim(out)) == Ok::<Seq<char>, Seq<char>>(out)
        }),
{
    lemma_trim_idempotent(id);
    lemma_trim_idempotent(svg);
}

/// Gives `action` a safe, portable icon: its icon id and markup are trimmed;
/// a built-in icon id takes the catalog's markup, the id
/// `custom` keeps its own markup if it passes `validate_custom_svg`, and any
/// other id is refused. On success, says whether the action changed.
pub fn normalize_action_icon(action: &mut QuickAction, icons: &IconCatalog) -> (r: Result<bool, String>)
    ensures
        final(action).icon_id@ == trim(old(action).icon_id@),
        final(action).id == old(action).id,
        final(action).revision == old(action).revision,
        final(action).name == old(action).name,
        final(action).color == old(action).color,
        final(action).group == old(action).group,
        final(action).sort_order == old(action).sort_order,
        final(action).source_preset_id == old(action).source_preset_id,
        final(action).confirm_before_run == old(action).confirm_before_run,
        final(action).global_shortcut == old(action).global_shortcut,
        final(action).action_type == old(action).action_type,
        match normalized_icon(icons.markup(), trim(old(action).icon_id@), trim(old(action).icon_svg@)) {
            Ok(svg) => final(action).icon_svg@ == svg && r == Ok::<bool, String>(
                trim(old(action).icon_id@) != old(action).icon_id@ || svg != old(action).icon_svg@),
            Err(e) => final(action).icon_svg@ == trim(old(action).icon_svg@) && r is Err && r->Err_0@ == e,
        },
{
    let previous_id = chars_of(action.icon_id.as_str());
    let previous_svg = chars_of(action.icon_svg.as_str());
    let id = trim_chars(&previous_id);
    let svg = trim_chars(&previous_svg);
    action.icon_id = string_from_chars(&id);
    action.icon_svg = string_from_chars(&svg);
    match builtin_svg(icons, action.icon_id.as_str()) {
        Some(builtin) => {
            action.icon_svg = builtin;
        },
        None => {
            if chars_equal(&id, &chars_of("custom")) {
                match validate_custom_svg(action.icon_svg.as_str()) {
                    Ok(_) => {},
                    Err(e) => {
                        return Err(e);
                    },
                }
            } else {
                return Err(String::from_str("select a valid SVG icon"));
            }
        },
    }
    let same_id = chars_equal(&id, &previous_id);
    let same_svg = chars_equal(&chars_of(action.icon_svg.as_str()), &previous_svg);
    Ok(!same_id || !same_svg)
}

} // verus!
