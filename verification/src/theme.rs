//! The home screen's palette and the button styling rules.
//!
//! Colors are 8-bit sRGB triples.  Styling is a pure function of the
//! interaction state: a hovered or pressed button shows the highlight
//! color, every other button shows none (transparent).
use crate::text::{str_chars, string_of_chars};
use vstd::prelude::*;

verus! {

/// An 8-bit sRGB color.
#[derive(Clone, Copy, Debug, PartialEq, Eq, Structural)]
pub struct Rgb {
    pub r: u8,
    pub g: u8,
    pub b: u8,
}

impl Rgb {
    pub fn new(r: u8, g: u8, b: u8) -> (c: Rgb)
        ensures
            c == (Rgb { r, g, b }),
    {
        Rgb { r, g, b }
    }
}

/// The home screen's palette.
#[derive(Clone, Copy, Debug, PartialEq, Eq, Structural)]
pub struct SeekerColors {
    pub home_menu: Rgb,
    pub project_list: Rgb,
    pub home_hovered: Rgb,
    pub button_border: Rgb,
    pub home_font_color: Rgb,
}

/// The fixed palette values.
pub open spec fn palette() -> SeekerColors {
    SeekerColors {
        home_menu: Rgb { r: 43, g: 45, b: 48 },
        project_list: Rgb { r: 30, g: 31, b: 34 },
        home_hovered: Rgb { r: 50, g: 66, b: 107 },
        button_border: Rgb { r: 79, g: 81, b: 86 },
        home_font_color: Rgb { r: 218, g: 220, b: 224 },
    }
}

impl SeekerColors {
    pub fn new() -> (c: Self)
        ensures
            c == palette(),
    {
        SeekerColors {
            home_menu: Rgb::new(43, 45, 48),
            project_list: Rgb::new(30, 31, 34),
            home_hovered: Rgb::new(50, 66, 107),
            button_border: Rgb::new(79, 81, 86),
            home_font_color: Rgb::new(218, 220, 224),
        }
    }
}

/// The shared read-only resources of the home screen.
#[derive(Clone, Copy, Debug)]
pub struct SeekerResource {
    pub colors: SeekerColors,
}

impl SeekerResource {
    pub fn new() -> (r: Self)
        ensures
            r.colors == palette(),
    {
        SeekerResource { colors: SeekerColors::new() }
    }
}

/// The background a button shows for its interaction state: the highlight
/// color while hovered or pressed, nothing otherwise.
pub fn style_for(hovered: bool, pressed: bool, colors: &SeekerColors) -> (r: Option<Rgb>)
    ensures
        r == (if hovered || pressed {
            Some(colors.home_hovered)
        } else {
            None::<Rgb>
        }),
{
    if hovered || pressed {
        Some(colors.home_hovered)
    } else {
        None
    }
}

/// After a press, the pressed button keeps the highlight and every other
/// button of the group is cleared.
pub fn press_colors(ids: &Vec<u64>, pressed_id: u64, colors: &SeekerColors) -> (r: Vec<
    Option<Rgb>,
>)
    ensures
        r@.len() == ids@.len(),
        forall|i: int|
            0 <= i < ids@.len() ==> r@[i] == (if ids@[i] == pressed_id {
                Some(colors.home_hovered)
            } else {
                None::<Rgb>
            }),
{
    let mut r: Vec<Option<Rgb>> = Vec::new();
    let mut i: usize = 0;
    while i < ids.len()
        invariant
            i <= ids@.len(),
            r@.len() == i,
            forall|k: int|
                0 <= k < i ==> r@[k] == (if ids@[k] == pressed_id {
                    Some(colors.home_hovered)
                } else {
                    None::<Rgb>
                }),
        decreases ids@.len() - i,
    {
        if ids[i] == pressed_id {
            r.push(Some(Rgb::new(colors.home_hovered.r, colors.home_hovered.g,
                colors.home_hovered.b)));
        } else {
            r.push(None);
        }
        i = i + 1;
    }
    r
}

/// The uppercase form of a string.  Named only: the case mapping is the
/// Unicode table that `str::to_uppercase` implements.
pub uninterp spec fn upper_of(s: Seq<char>) -> Seq<char>;

/// Relies on `str::to_uppercase`: the result depends on the characters
/// alone, and an empty string stays empty.
#[verifier::external_body]
fn uppercase(s: &str) -> (r: String)
    ensures
        r@ == upper_of(s@),
        s@.len() == 0 ==> r@.len() == 0,
{
    s.to_uppercase()
}

/// The first two characters of a name.
pub open spec fn short_prefix(name: Seq<char>) -> Seq<char> {
    if name.len() <= 2 {
        name
    } else {
        name.take(2)
    }
}

/// One row of the home screen's project list: the two-character monogram
/// badge, the project's name, and its path.
#[derive(Debug)]
pub struct ProjectRow {
    pub monogram: String,
    pub name: String,
    pub path: String,
}

/// The rows of the project list, one per record in order: each record's
/// monogram beside its name and path.
pub fn project_row_labels(projects: &Vec<crate::store::Project>) -> (r: Vec<ProjectRow>)
    ensures
        r@.len() == projects@.len(),
        forall|i: int|
            0 <= i < projects@.len() ==> (#[trigger] r@[i]).monogram@ == upper_of(
                short_prefix(projects@[i].project_name@),
            ) && r@[i].name@ == projects@[i].project_name@ && r@[i].path@ == projects@[i].path@,
{
    let mut r: Vec<ProjectRow> = Vec::new();
    let mut i: usize = 0;
    while i < projects.len()
        invariant
            i <= projects@.len(),
            r@.len() == i,
            forall|k: int|
                0 <= k < i ==> (#[trigger] r@[k]).monogram@ == upper_of(
                    short_prefix(projects@[k].project_name@),
                ) && r@[k].name@ == projects@[k].project_name@ && r@[k].path@
                    == projects@[k].path@,
        decreases projects@.len() - i,
    {
        let p = &projects[i];
        let monogram = get_project_name_short(p.project_name.as_str());
        let copy = p.clone();
        r.push(ProjectRow { monogram, name: copy.project_name, path: copy.path });
        i = i + 1;
    }
    r
}

/// A project's two-character monogram: the uppercased first two characters
/// of its name.
pub fn get_project_name_short(project_name: &str) -> (r: String)
    ensures
        r@ == upper_of(short_prefix(project_name@)),
{
    let chars = str_chars(project_name);
    let mut prefix: Vec<char> = Vec::new();
    if chars.len() > 0 {
        prefix.push(chars[0]);
    }
    if chars.len() > 1 {
        prefix.push(chars[1]);
    }
    proof {
        assert(prefix@ =~= short_prefix(project_name@));
    }
    let prefix_text = string_of_chars(&prefix);
    uppercase(prefix_text.as_str())
}

} // verus!
