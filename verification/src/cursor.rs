//! The pointer: which cursor icon a hovered box shows, and the items of
//! the context menu of the hovered nodes.

use vstd::prelude::*;

use crate::dom::{bytes_of, str_eq};
use crate::selector_match::str_eq_ignore_ascii_case;
use crate::text::eq_ignore_case;
use crate::urls::{resolve_url, resolved_url};

verus! {

/// The keywords of the `cursor` property; `NoCursor` is `none`.
#[derive(Copy, Clone, Debug, PartialEq, Eq, Structural)]
pub enum CssCursor {
    Auto,
    Default,
    NoCursor,
    ContextMenu,
    Help,
    Pointer,
    Progress,
    Wait,
    Cell,
    Crosshair,
    Text,
    VerticalText,
    Alias,
    Copy,
    Move,
    NoDrop,
    NotAllowed,
    Grab,
    Grabbing,
    EResize,
    NResize,
    NeResize,
    NwResize,
    SResize,
    SeResize,
    SwResize,
    WResize,
    EwResize,
    NsResize,
    NeswResize,
    NwseResize,
    ColResize,
    RowResize,
    AllScroll,
    ZoomIn,
    ZoomOut,
}

/// The cursor icons that the window can show.
#[derive(Copy, Clone, Debug, PartialEq, Eq, Structural)]
pub enum CursorIcon {
    Default,
    ContextMenu,
    Help,
    Hand,
    Progress,
    Wait,
    Cell,
    Crosshair,
    Text,
    VerticalText,
    Alias,
    Copy,
    Move,
    NoDrop,
    NotAllowed,
    Grab,
    Grabbing,
    EResize,
    NResize,
    NeResize,
    NwResize,
    SResize,
    SeResize,
    SwResize,
    WResize,
    EwResize,
    NsResize,
    NeswResize,
    NwseResize,
    ColResize,
    RowResize,
    AllScroll,
    ZoomIn,
    ZoomOut,
}

/// The icon for the `cursor` value of a box: `auto` shows the text cursor
/// over anonymous boxes, which hold text, and the default arrow elsewhere;
/// `none` is shown as the default arrow and `pointer` as a hand.
pub open spec fn cursor_icon(cursor: CssCursor, box_is_anonymous: bool) -> CursorIcon {
    match cursor {
            CssCursor::Auto => if box_is_anonymous { CursorIcon::Text } else { CursorIcon::Default },
            CssCursor::Default => CursorIcon::Default,
            CssCursor::NoCursor => CursorIcon::Default,
            CssCursor::ContextMenu => CursorIcon::ContextMenu,
            CssCursor::Help => CursorIcon::Help,
            CssCursor::Pointer => CursorIcon::Hand,
            CssCursor::Progress => CursorIcon::Progress,
            CssCursor::Wait => CursorIcon::Wait,
            CssCursor::Cell => CursorIcon::Cell,
            CssCursor::Crosshair => CursorIcon::Crosshair,
            CssCursor::Text => CursorIcon::Text,
            CssCursor::VerticalText => CursorIcon::VerticalText,
            CssCursor::Alias => CursorIcon::Alias,
            CssCursor::Copy => CursorIcon::Copy,
            CssCursor::Move => CursorIcon::Move,
            CssCursor::NoDrop => CursorIcon::NoDrop,
            CssCursor::NotAllowed => CursorIcon::NotAllowed,
            CssCursor::Grab => CursorIcon::Grab,
            CssCursor::Grabbing => CursorIcon::Grabbing,
            CssCursor::EResize => CursorIcon::EResize,
            CssCursor::NResize => CursorIcon::NResize,
            CssCursor::NeResize => CursorIcon::NeResize,
            CssCursor::NwResize => CursorIcon::NwResize,
            CssCursor::SResize => CursorIcon::SResize,
            CssCursor::SeResize => CursorIcon::SeResize,
            CssCursor::SwResize => CursorIcon::SwResize,
            CssCursor::WResize => CursorIcon::WResize,
            CssCursor::EwResize => CursorIcon::EwResize,
            CssCursor::NsResize => CursorIcon::NsResize,
            CssCursor::NeswResize => CursorIcon::NeswResize,
            CssCursor::NwseResize => CursorIcon::NwseResize,
            CssCursor::ColResize => CursorIcon::ColResize,
            CssCursor::RowResize => CursorIcon::RowResize,
            CssCursor::AllScroll => CursorIcon::AllScroll,
            CssCursor::ZoomIn => CursorIcon::ZoomIn,
            CssCursor::ZoomOut => CursorIcon::ZoomOut,
    }
}

/// The icon for the `cursor` value of a box.
pub fn convert_cursor_type(cursor: CssCursor, box_is_anonymous: bool) -> (r: CursorIcon)
    ensures
        r == cursor_icon(cursor, box_is_anonymous),
{
    match cursor {
            CssCursor::Auto => if box_is_anonymous { CursorIcon::Text } else { CursorIcon::Default },
            CssCursor::Default => CursorIcon::Default,
            CssCursor::NoCursor => CursorIcon::Default,
            CssCursor::ContextMenu => CursorIcon::ContextMenu,
            CssCursor::Help => CursorIcon::Help,
            CssCursor::Pointer => CursorIcon::Hand,
            CssCursor::Progress => CursorIcon::Progress,
            CssCursor::Wait => CursorIcon::Wait,
            CssCursor::Cell => CursorIcon::Cell,
            CssCursor::Crosshair => CursorIcon::Crosshair,
            CssCursor::Text => CursorIcon::Text,
            CssCursor::VerticalText => CursorIcon::VerticalText,
            CssCursor::Alias => CursorIcon::Alias,
            CssCursor::Copy => CursorIcon::Copy,
            CssCursor::Move => CursorIcon::Move,
            CssCursor::NoDrop => CursorIcon::NoDrop,
            CssCursor::NotAllowed => CursorIcon::NotAllowed,
            CssCursor::Grab => CursorIcon::Grab,
            CssCursor::Grabbing => CursorIcon::Grabbing,
            CssCursor::EResize => CursorIcon::EResize,
            CssCursor::NResize => CursorIcon::NResize,
            CssCursor::NeResize => CursorIcon::NeResize,
            CssCursor::NwResize => CursorIcon::NwResize,
            CssCursor::SResize => CursorIcon::SResize,
            CssCursor::SeResize => CursorIcon::SeResize,
            CssCursor::SwResize => CursorIcon::SwResize,
            CssCursor::WResize => CursorIcon::WResize,
            CssCursor::EwResize => CursorIcon::EwResize,
            CssCursor::NsResize => CursorIcon::NsResize,
            CssCursor::NeswResize => CursorIcon::NeswResize,
            CssCursor::NwseResize => CursorIcon::NwseResize,
            CssCursor::ColResize => CursorIcon::ColResize,
            CssCursor::RowResize => CursorIcon::RowResize,
            CssCursor::AllScroll => CursorIcon::AllScroll,
            CssCursor::ZoomIn => CursorIcon::ZoomIn,
            CssCursor::ZoomOut => CursorIcon::ZoomOut,
    }
}

/// The icon that the pointer shows over the innermost box under it: its
/// `cursor` value and whether it is anonymous; the help icon where no box
/// is under the pointer.
pub open spec fn hovered_icon(top: Option<(CssCursor, bool)>) -> CursorIcon {
    match top {
        Some((cursor, anonymous)) => cursor_icon(cursor, anonymous),
        None => CursorIcon::Help,
    }
}

/// The icon that the pointer shows over the innermost box under it.
pub fn hovered_cursor(top: Option<(CssCursor, bool)>) -> (r: CursorIcon)
    ensures
        r == hovered_icon(top),
{
    match top {
        Some((cursor, anonymous)) => convert_cursor_type(cursor, anonymous),
        None => CursorIcon::Help,
    }
}

/// The icon that the window shows.
#[derive(Copy, Clone, Debug, PartialEq, Eq, Structural)]
pub struct CursorState {
    pub cursor: CursorIcon,
}

impl CursorState {
    /// The window starts with the default arrow.
    pub fn new() -> (r: CursorState)
        ensures
            r.cursor == CursorIcon::Default,
    {
        CursorState { cursor: CursorIcon::Default }
    }

    /// Shows `cursor`; says whether the window must be told, which is when
    /// the icon changes.
    pub fn set_cursor(&mut self, cursor: CursorIcon) -> (changed: bool)
        ensures
            final(self).cursor == cursor,
            changed == (old(self).cursor != cursor),
    {
        if self.cursor == cursor {
            return false;
        }
        self.cursor = cursor;
        true
    }
}

/// What an `img` element under the pointer offers to copy.
#[derive(Clone, Debug, PartialEq, Eq)]
pub struct ImageFacts {
    pub alt: String,
    pub src: String,
}

/// A node under the pointer, as the context menu and clicks read it.
#[derive(Clone, Debug, PartialEq, Eq)]
pub struct HoveredNode {
    /// The local name of an element; `None` for other nodes.
    pub local_name: Option<String>,
    /// The `href` attribute of an element.
    pub href: Option<String>,
    /// The data of the first text node among the children of an element.
    pub first_text: Option<String>,
    /// What an `img` element holds.
    pub image: Option<ImageFacts>,
}

/// What an item of the context menu copies.
#[derive(Copy, Clone, Debug, PartialEq, Eq, Structural)]
pub enum ContextMenuAction {
    CopyLink,
    CopyLinkText,
    CopyImageLocation,
    CopyImageAlternativeText,
    CopyPageUrl,
}

impl ContextMenuAction {
    /// The label of the item.
    pub fn label(&self) -> (r: &'static str)
        ensures
            r@ == (match self {
                ContextMenuAction::CopyLink => "Copy Link"@,
                ContextMenuAction::CopyLinkText => "Copy Link Text"@,
                ContextMenuAction::CopyImageLocation => "Copy Image Location"@,
                ContextMenuAction::CopyImageAlternativeText => "Copy Image Alternative Text"@,
                ContextMenuAction::CopyPageUrl => "Copy Page URL"@,
            }),
    {
        match self {
            ContextMenuAction::CopyLink => "Copy Link",
            ContextMenuAction::CopyLinkText => "Copy Link Text",
            ContextMenuAction::CopyImageLocation => "Copy Image Location",
            ContextMenuAction::CopyImageAlternativeText => "Copy Image Alternative Text",
            ContextMenuAction::CopyPageUrl => "Copy Page URL",
        }
    }
}

/// An entry of the context menu: a separator, or an item that copies a text
/// to the clipboard.
#[derive(Clone, Debug, PartialEq, Eq)]
pub enum ContextMenuEntry {
    Separator,
    Copy { action: ContextMenuAction, text: String },
}

pub enum ContextMenuEntryView {
    Separator,
    Copy(ContextMenuAction, Seq<char>),
}

impl View for ContextMenuEntry {
    type V = ContextMenuEntryView;

    open spec fn view(&self) -> ContextMenuEntryView {
        match self {
            ContextMenuEntry::Separator => ContextMenuEntryView::Separator,
            ContextMenuEntry::Copy { action, text } => ContextMenuEntryView::Copy(*action, text@),
        }
    }
}

pub open spec fn entry_views(es: Seq<ContextMenuEntry>) -> Seq<ContextMenuEntryView> {
    es.map_values(|e: ContextMenuEntry| e@)
}

pub open spec fn named(n: HoveredNode, name: Seq<char>) -> bool {
    match n.local_name {
        Some(l) => l@ == name,
        None => false,
    }
}

pub open spec fn opt_chars(s: Option<String>) -> Option<Seq<char>> {
    match s {
        Some(s) => Some(s@),
        None => None,
    }
}

/// The first `a` element from `k` outwards whose `href` resolves against
/// `base`: the URL, and the text of the link.
pub open spec fn link_from(stack: Seq<HoveredNode>, base: Seq<char>, k: int) -> Option<(Seq<char>, Option<Seq<char>>)>
    decreases stack.len() - k,
{
    if k < 0 || k >= stack.len() {
        None
    } else {
        let n = stack[k];
        let here = if named(n, "a"@) {
            match n.href {
                Some(h) => match resolved_url(Some(base), h@) {
                    Some(u) => Some((u, opt_chars(n.first_text))),
                    None => None,
                },
                None => None,
            }
        } else {
            None
        };
        if here is Some {
            here
        } else {
            link_from(stack, base, k + 1)
        }
    }
}

/// The first `img` element from `k` outwards: its alternative text, and its
/// source resolved against `base`.
pub open spec fn image_from(stack: Seq<HoveredNode>, base: Seq<char>, k: int) -> Option<(Seq<char>, Option<Seq<char>>)>
    decreases stack.len() - k,
{
    if k < 0 || k >= stack.len() {
        None
    } else {
        let n = stack[k];
        match n.image {
            Some(img) => if named(n, "img"@) {
                Some((img.alt@, resolved_url(Some(base), img.src@)))
            } else {
                image_from(stack, base, k + 1)
            },
            None => image_from(stack, base, k + 1),
        }
    }
}

/// The entries that the nodes under the pointer (innermost first) add to
/// the context menu: the link and its text, then the image location and its
/// alternative text, with a separator between links and images.
pub open spec fn element_menu(stack: Seq<HoveredNode>, base: Seq<char>) -> Seq<ContextMenuEntryView> {
    let link = link_from(stack, base, 0);
    let image = image_from(stack, base, 0);
    let link_items = match link {
        Some((u, text)) => seq![ContextMenuEntryView::Copy(ContextMenuAction::CopyLink, u)] + match text {
            Some(t) => seq![ContextMenuEntryView::Copy(ContextMenuAction::CopyLinkText, t)],
            None => Seq::empty(),
        },
        None => Seq::empty(),
    };
    let image_items = match image {
        Some((alt, Some(u))) => seq![
            ContextMenuEntryView::Copy(ContextMenuAction::CopyImageLocation, u),
            ContextMenuEntryView::Copy(ContextMenuAction::CopyImageAlternativeText, alt),
        ],
        _ => Seq::empty(),
    };
    let separator = if link is Some && image_items.len() > 0 {
        seq![ContextMenuEntryView::Separator]
    } else {
        Seq::empty()
    };
    link_items + separator + image_items
}

/// The whole context menu: the entries of the nodes, a separator when there
/// are any, and the item that copies the page's URL.
pub open spec fn context_menu(stack: Seq<HoveredNode>, page_url: Seq<char>) -> Seq<ContextMenuEntryView> {
    let items = element_menu(stack, page_url);
    let items = if items.len() > 0 { items.push(ContextMenuEntryView::Separator) } else { items };
    items.push(ContextMenuEntryView::Copy(ContextMenuAction::CopyPageUrl, page_url))
}

fn is_named(n: &HoveredNode, name: &str) -> (r: bool)
    ensures
        r == named(*n, name@),
{
    match &n.local_name {
        Some(l) => str_eq(l.as_str(), name),
        None => false,
    }
}

fn find_link(stack: &[HoveredNode], base: &str) -> (r: Option<(String, Option<String>)>)
    ensures
        match (r, link_from(stack@, base@, 0)) {
            (Some((u, t)), Some((su, st))) => u@ == su && opt_chars(t) == st,
            (None, None) => true,
            _ => false,
        },
{
    let mut k: usize = 0;
    while k < stack.len()
        invariant
            k <= stack@.len(),
            link_from(stack@, base@, 0) == link_from(stack@, base@, k as int),
        decreases stack@.len() - k,
    {
        let n = &stack[k];
        if is_named(n, "a") {
            if let Some(h) = &n.href {
                if let Some(u) = resolve_url(Some(base), h.as_str()) {
                    let text = match &n.first_text {
                        Some(t) => Some(t.clone()),
                        None => None,
                    };
                    return Some((u, text));
                }
            }
        }
        k = k + 1;
    }
    None
}

fn find_image(stack: &[HoveredNode], base: &str) -> (r: Option<(String, Option<String>)>)
    ensures
        match (r, image_from(stack@, base@, 0)) {
            (Some((a, u)), Some((sa, su))) => a@ == sa && opt_chars(u) == su,
            (None, None) => true,
            _ => false,
        },
{
    let mut k: usize = 0;
    while k < stack.len()
        invariant
            k <= stack@.len(),
            image_from(stack@, base@, 0) == image_from(stack@, base@, k as int),
        decreases stack@.len() - k,
    {
        let n = &stack[k];
        if let Some(img) = &n.image {
            if is_named(n, "img") {
                return Some((img.alt.clone(), resolve_url(Some(base), img.src.as_str())));
            }
        }
        k = k + 1;
    }
    None
}

/// The entries that the nodes under the pointer, innermost first, add to
/// the context menu of the page at `base`.
pub fn element_dependent_context_menu_items(stack: &[HoveredNode], base: &str) -> (r: Vec<ContextMenuEntry>)
    ensures
        entry_views(r@) == element_menu(stack@, base@),
{
    let link = find_link(stack, base);
    let image = find_image(stack, base);
    let mut items: Vec<ContextMenuEntry> = Vec::new();
    let has_link = link.is_some();
    if let Some((u, text)) = link {
        items.push(ContextMenuEntry::Copy { action: ContextMenuAction::CopyLink, text: u });
        if let Some(t) = text {
            items.push(ContextMenuEntry::Copy { action: ContextMenuAction::CopyLinkText, text: t });
        }
    }
    let ghost link_part = items@;
    if let Some((alt, Some(u))) = image {
        if has_link {
            items.push(ContextMenuEntry::Separator);
        }
        items.push(ContextMenuEntry::Copy { action: ContextMenuAction::CopyImageLocation, text: u });
        items.push(ContextMenuEntry::Copy { action: ContextMenuAction::CopyImageAlternativeText, text: alt });
    }
    proof {
        let spec_link = link_from(stack@, base@, 0);
        let spec_image = image_from(stack@, base@, 0);
        let link_items = match spec_link {
            Some((su, st)) => seq![ContextMenuEntryView::Copy(ContextMenuAction::CopyLink, su)] + match st {
                Some(t) => seq![ContextMenuEntryView::Copy(ContextMenuAction::CopyLinkText, t)],
                None => Seq::empty(),
            },
            None => Seq::empty(),
        };
        assert(entry_views(link_part) =~= link_items);
        assert(entry_views(items@) =~= element_menu(stack@, base@));
    }
    items
}

/// The context menu over the nodes under the pointer, innermost first, on
/// the page at `page_url`.
pub fn context_menu_items(stack: &[HoveredNode], page_url: &str) -> (r: Vec<ContextMenuEntry>)
    ensures
        entry_views(r@) == context_menu(stack@, page_url@),
{
    let mut items = element_dependent_context_menu_items(stack, page_url);
    let ghost first = items@;
    if items.len() > 0 {
        items.push(ContextMenuEntry::Separator);
        proof {
            assert(entry_views(items@) =~= entry_views(first).push(ContextMenuEntryView::Separator));
        }
    }
    let ghost second = items@;
    items.push(ContextMenuEntry::Copy { action: ContextMenuAction::CopyPageUrl, text: page_url.to_string() });
    proof {
        assert(entry_views(items@) =~= entry_views(second).push(
            ContextMenuEntryView::Copy(ContextMenuAction::CopyPageUrl, page_url@),
        ));
    }
    items
}

/// The first element from `k` outwards whose local name is `a` in any ASCII
/// case.
pub open spec fn anchor_from(stack: Seq<HoveredNode>, k: int) -> Option<HoveredNode>
    decreases stack.len() - k,
{
    if k < 0 || k >= stack.len() {
        None
    } else {
        match stack[k].local_name {
            Some(l) => if eq_ignore_case(bytes_of(l@), bytes_of("a"@)) {
                Some(stack[k])
            } else {
                anchor_from(stack, k + 1)
            },
            None => anchor_from(stack, k + 1),
        }
    }
}

/// The URL that a click opens: the `href` of the innermost link under the
/// pointer, resolved against the page's URL; nothing when that link has no
/// `href` or it does not resolve.
pub open spec fn click_url(stack: Seq<HoveredNode>, page_url: Seq<char>) -> Option<Seq<char>> {
    match anchor_from(stack, 0) {
        Some(n) => match n.href {
            Some(h) => resolved_url(Some(page_url), h@),
            None => None,
        },
        None => None,
    }
}

/// The URL that a click on the nodes under the pointer, innermost first,
/// opens.
pub fn link_to_open(stack: &[HoveredNode], page_url: &str) -> (r: Option<String>)
    ensures
        opt_chars(r) == click_url(stack@, page_url@),
{
    let mut k: usize = 0;
    while k < stack.len()
        invariant
            k <= stack@.len(),
            anchor_from(stack@, 0) == anchor_from(stack@, k as int),
        decreases stack@.len() - k,
    {
        let n = &stack[k];
        if let Some(l) = &n.local_name {
            if str_eq_ignore_ascii_case(l.as_str(), "a") {
                return match &n.href {
                    Some(h) => resolve_url(Some(page_url), h.as_str()),
                    None => None,
                };
            }
        }
        k = k + 1;
    }
    None
}

} // verus!
