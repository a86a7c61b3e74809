use vstd::prelude::*;

verus! {

/// A target operating environment that the shell can be built for.
#[derive(Clone, Copy, Debug, PartialEq, Eq, Structural)]
pub enum Platform {
    Windows,
    MacOs,
    Linux,
    Android,
    Ios,
}

/// A platform window: the key it is known by in the shell and its visible title.
#[derive(Debug)]
pub struct Window {
    pub label: String,
    pub title: String,
}

/// The abstract value of a window.
pub struct WindowView {
    pub label: Seq<char>,
    pub title: Seq<char>,
}

impl View for Window {
    type V = WindowView;

    open spec fn view(&self) -> WindowView {
        WindowView { label: self.label@, title: self.title@ }
    }
}

/// A title change that applies on one platform only.
#[derive(Debug)]
pub struct TitleCustomization {
    pub platform: Platform,
    pub title: String,
}

/// The abstract value of a title customization.
pub struct TitleView {
    pub platform: Platform,
    pub title: Seq<char>,
}

impl View for TitleCustomization {
    type V = TitleView;

    open spec fn view(&self) -> TitleView {
        TitleView { platform: self.platform, title: self.title@ }
    }
}

/// The window `w` after applying `c` on `platform`: the title is replaced on the
/// customization's own platform, and nothing changes elsewhere.
pub open spec fn customized(w: WindowView, c: TitleView, platform: Platform) -> WindowView {
    if platform == c.platform {
        WindowView { label: w.label, title: c.title }
    } else {
        w
    }
}

/// Some window of `ws` carries `label`.
pub open spec fn has_window(ws: Seq<WindowView>, label: Seq<char>) -> bool {
    exists|i: int| 0 <= i < ws.len() && (#[trigger] ws[i]).label == label
}

/// `i` is the first position of `ws` whose window carries `label`.
pub open spec fn first_match(ws: Seq<WindowView>, label: Seq<char>, i: int) -> bool {
    &&& 0 <= i < ws.len()
    &&& ws[i].label == label
    &&& forall|j: int| 0 <= j < i ==> (#[trigger] ws[j]).label != label
}

/// The position at which a lookup of `label` finds its window.
pub open spec fn window_index(ws: Seq<WindowView>, label: Seq<char>) -> int {
    choose|i: int| first_match(ws, label, i)
}

/// The abstract values of a sequence of windows.
pub open spec fn views(ws: Seq<Window>) -> Seq<WindowView> {
    ws.map_values(|w: Window| w@)
}

/// There is at most one first position of a label.
pub proof fn lemma_first_match_unique(ws: Seq<WindowView>, label: Seq<char>, i: int, j: int)
    requires
        first_match(ws, label, i),
        first_match(ws, label, j),
    ensures
        i == j,
{
}

/// A window carrying `label` at position `k` has a first position at or before `k`.
proof fn lemma_first_match_exists(ws: Seq<WindowView>, label: Seq<char>, k: int)
    requires
        0 <= k < ws.len(),
        ws[k].label == label,
    ensures
        exists|i: int| first_match(ws, label, i),
    decreases k,
{
    if exists|j: int| 0 <= j < k && (#[trigger] ws[j]).label == label {
        let j = choose|j: int| 0 <= j < k && (#[trigger] ws[j]).label == label;
        lemma_first_match_exists(ws, label, j);
    } else {
        assert(first_match(ws, label, k));
    }
}

/// A label that some window carries has a first position, and the lookup names it.
pub proof fn lemma_window_index(ws: Seq<WindowView>, label: Seq<char>)
    requires
        has_window(ws, label),
    ensures
        first_match(ws, label, window_index(ws, label)),
{
    let k = choose|k: int| 0 <= k < ws.len() && (#[trigger] ws[k]).label == label;
    lemma_first_match_exists(ws, label, k);
}

/// Looks up the first window that carries `label`.
pub fn find_window(windows: &Vec<Window>, label: &String) -> (r: Option<usize>)
    ensures
        r is None <==> !has_window(views(windows@), label@),
        r matches Some(i) ==> first_match(views(windows@), label@, i as int)
            && i as int == window_index(views(windows@), label@),
{
    let mut i: usize = 0;
    while i < windows.len()
        invariant
            0 <= i <= windows.len(),
            forall|j: int| 0 <= j < i ==> (#[trigger] views(windows@)[j]).label != label@,
        decreases windows.len() - i,
    {
        if windows[i].label == *label {
            proof {
                assert(views(windows@)[i as int].label == label@);
                lemma_window_index(views(windows@), label@);
                lemma_first_match_unique(
                    views(windows@),
                    label@,
                    i as int,
                    window_index(views(windows@), label@),
                );
            }
            return Some(i);
        }
        i = i + 1;
    }
    assert(!has_window(views(windows@), label@)) by {
        assert forall|k: int| 0 <= k < views(windows@).len() implies (#[trigger] views(
            windows@,
        )[k]).label != label@ by {}
    }
    None
}

/// Applies a platform-gated title change: on the customization's platform the
/// title becomes the configured one; on any other platform nothing changes.
pub fn customize_window(window: &mut Window, custom: &TitleCustomization, platform: Platform)
    ensures
        final(window)@ == customized(old(window)@, custom@, platform),
{
    if platform == custom.platform {
        window.title = custom.title.clone();
    }
}

} // verus!
