//! Decisions of the server's debug window: docked tabs, search filters and
//! the free-flying camera.
use vstd::prelude::*;
use crate::text::{lowercase, to_lowercase};

verus! {

/// The tabs of the debug window.
#[derive(Clone, Copy, Debug, PartialEq, Eq, Hash, Structural)]
pub enum EguiWindow {
    GameView,
    Hierarchy,
    Resources,
    Assets,
    Inspector,
}

impl EguiWindow {
    /// Every tab: the game view renders the world itself, the others draw a background.
    pub fn clear_background(&self) -> (b: bool)
        ensures
            b == (*self != EguiWindow::GameView),
    {
        match self {
            EguiWindow::GameView => false,
            _ => true,
        }
    }

    /// The tab's title: its name.
    pub fn title(&self) -> (t: &'static str)
        ensures
            t@ == window_title(*self),
    {
        match self {
            EguiWindow::GameView => {
                proof { reveal_strlit("GameView"); }
                "GameView"
            },
            EguiWindow::Hierarchy => {
                proof { reveal_strlit("Hierarchy"); }
                "Hierarchy"
            },
            EguiWindow::Resources => {
                proof { reveal_strlit("Resources"); }
                "Resources"
            },
            EguiWindow::Assets => {
                proof { reveal_strlit("Assets"); }
                "Assets"
            },
            EguiWindow::Inspector => {
                proof { reveal_strlit("Inspector"); }
                "Inspector"
            },
        }
    }
}

/// The title of a tab.
pub open spec fn window_title(w: EguiWindow) -> Seq<char> {
    match w {
        EguiWindow::GameView => "GameView"@,
        EguiWindow::Hierarchy => "Hierarchy"@,
        EguiWindow::Resources => "Resources"@,
        EguiWindow::Assets => "Assets"@,
        EguiWindow::Inspector => "Inspector"@,
    }
}

/// The search text of every tab, each starting empty.
pub fn default_search_queries() -> (q: Vec<(EguiWindow, String)>)
    ensures
        q@.len() == 5,
        q@[0].0 == EguiWindow::GameView,
        q@[1].0 == EguiWindow::Hierarchy,
        q@[2].0 == EguiWindow::Resources,
        q@[3].0 == EguiWindow::Assets,
        q@[4].0 == EguiWindow::Inspector,
        forall|i: int| 0 <= i < 5 ==> q@[i].1@ == Seq::<char>::empty(),
{
    let mut q: Vec<(EguiWindow, String)> = Vec::new();
    q.push((EguiWindow::GameView, String::new()));
    q.push((EguiWindow::Hierarchy, String::new()));
    q.push((EguiWindow::Resources, String::new()));
    q.push((EguiWindow::Assets, String::new()));
    q.push((EguiWindow::Inspector, String::new()));
    q
}

/// Whether `needle` occurs in `hay` as a contiguous piece.
pub open spec fn contains_text(hay: Seq<char>, needle: Seq<char>) -> bool {
    exists|i: int| 0 <= i && i + needle.len() <= hay.len() && #[trigger] hay.subrange(i, i + needle.len()) == needle
}

fn occurs_at(hay: &Vec<char>, needle: &Vec<char>, i: usize) -> (b: bool)
    requires
        i + needle@.len() <= hay@.len(),
    ensures
        b == (hay@.subrange(i as int, i + needle@.len()) == needle@),
{
    let hl = hay.len();
    let mut k: usize = 0;
    while k < needle.len()
        invariant
            hl == hay@.len(),
            i + needle@.len() <= hay@.len(),
            k <= needle@.len(),
            forall|j: int| 0 <= j < k ==> hay@[i + j] == needle@[j],
        decreases needle@.len() - k,
    {
        if hay[i + k] != needle[k] {
            assert(hay@.subrange(i as int, i + needle@.len())[k as int] != needle@[k as int]);
            return false;
        }
        k = k + 1;
    }
    assert(hay@.subrange(i as int, i + needle@.len()) =~= needle@);
    true
}

fn chars_of(s: &str) -> (v: Vec<char>)
    ensures
        v@ == s@,
{
    let n = s.unicode_len();
    let mut v: Vec<char> = Vec::new();
    let mut i: usize = 0;
    while i < n
        invariant
            n == s@.len(),
            i <= n,
            v@ == s@.subrange(0, i as int),
        decreases n - i,
    {
        v.push(s.get_char(i));
        i = i + 1;
        assert(v@ =~= s@.subrange(0, i as int));
    }
    assert(v@ =~= s@);
    v
}

/// Whether `hay` contains `needle`.
pub fn text_contains(hay: &str, needle: &str) -> (b: bool)
    ensures
        b == contains_text(hay@, needle@),
{
    let h = chars_of(hay);
    let n = chars_of(needle);
    if n.len() > h.len() {
        return false;
    }
    if n.len() == 0 {
        assert(hay@.subrange(0int, 0int + needle@.len()) =~= needle@);
        return true;
    }
    let hl = h.len();
    let last = hl - n.len();
    let mut i: usize = 0;
    while i <= last
        invariant
            hl == h@.len(),
            last < hl,
            1 <= n@.len() <= h@.len(),
            last == h@.len() - n@.len(),
            h@ == hay@,
            n@ == needle@,
            i <= last + 1,
            forall|j: int| 0 <= j < i ==> #[trigger] hay@.subrange(j, j + needle@.len()) != needle@,
        decreases last + 1 - i,
    {
        if occurs_at(&h, &n, i) {
            return true;
        }
        i = i + 1;
    }
    false
}

/// Whether a listed name passes a tab's search: an empty search lets
/// everything through, otherwise the lower-cased name must contain the
/// lower-cased search.
pub open spec fn passes_search(name: Seq<char>, query: Seq<char>) -> bool {
    query.len() == 0 || contains_text(lowercase(name), lowercase(query))
}

/// Whether a listed name passes a tab's search.
pub fn matches_search(name: &str, query: &str) -> (b: bool)
    ensures
        b == passes_search(name@, query@),
{
    if query.unicode_len() == 0 {
        return true;
    }
    let n = to_lowercase(name);
    let q = to_lowercase(query);
    text_contains(n.as_str(), q.as_str())
}

/// The camera to control: the one already chosen, else the only camera
/// there is (none when there are none or several).
pub fn initial_camera(active: Option<u64>, cameras: &Vec<u64>) -> (c: Option<u64>)
    ensures
        c == match active {
            Some(a) => Some(a),
            None => if cameras@.len() == 1 { Some(cameras@[0]) } else { None },
        },
{
    match active {
        Some(a) => Some(a),
        None => {
            if cameras.len() == 1 {
                Some(cameras[0])
            } else {
                None
            }
        },
    }
}

/// How the flight mode of the camera changes on input.
#[derive(Clone, Copy, Debug, PartialEq, Eq, Structural)]
pub enum FocusChange {
    /// Escape: leave flight mode and free the cursor.
    Release,
    /// Alt + left click: enter flight mode and hold the cursor.
    Grab,
    Keep,
}

/// How flight mode changes: Escape leaves it, a left click with Alt held enters it.
pub fn update_focus(escape_just_pressed: bool, left_just_pressed: bool, alt_pressed: bool) -> (f: FocusChange)
    ensures
        f == if escape_just_pressed {
            FocusChange::Release
        } else if left_just_pressed && alt_pressed {
            FocusChange::Grab
        } else {
            FocusChange::Keep
        },
{
    if escape_just_pressed {
        FocusChange::Release
    } else if left_just_pressed && alt_pressed {
        FocusChange::Grab
    } else {
        FocusChange::Keep
    }
}

/// Whether an attached camera lets go of its target: in flight mode, on any
/// movement key or mouse motion.
pub fn should_detach(attached: bool, focus: bool, movement_input: bool, mouse_input: bool) -> (d: bool)
    ensures
        d == (attached && focus && (movement_input || mouse_input)),
{
    attached && focus && (movement_input || mouse_input)
}

} // verus!
