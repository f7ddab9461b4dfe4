use vstd::prelude::*;
use vstd::string::*;

use crate::face::ButtonFace;

verus! {

/// CSS classes of the button when it shows its top or a custom image.
pub const BASE_CLASS: &'static str = "button-wrapper examine";

/// CSS classes of the button when it shows its bottom.
pub const FLIPPED_CLASS: &'static str = "button-wrapper examine flipped";

/// What precedes the image reference in the style of a custom face.
pub const STYLE_PREFIX: &'static str = "background-image: url(\"";

/// What follows the image reference in the style of a custom face.
pub const STYLE_SUFFIX: &'static str = "\")";

/// The character sequences of a list of strings.
pub open spec fn texts(v: Seq<String>) -> Seq<Seq<char>> {
    v.map_values(|s: String| s@)
}

/// Selecting a reference: an existing one is shown again, a new one is
/// appended and shown.
pub open spec fn add_or_select(faces: Seq<Seq<char>>, r: Seq<char>) -> (Seq<Seq<char>>, ButtonFace) {
    if faces.contains(r) {
        (faces, ButtonFace::Custom(faces.index_of(r) as usize))
    } else {
        (faces.push(r), ButtonFace::Custom(faces.len() as usize))
    }
}

/// The list of custom faces after loading `refs` into `faces`: each reference
/// that is not yet present is appended, in the order of `refs`.
pub open spec fn merged(faces: Seq<Seq<char>>, refs: Seq<Seq<char>>) -> Seq<Seq<char>>
    decreases refs.len(),
{
    if refs.len() == 0 {
        faces
    } else {
        let before = merged(faces, refs.drop_last());
        if before.contains(refs.last()) {
            before
        } else {
            before.push(refs.last())
        }
    }
}

/// The style that shows the image at reference `url` as the background.
pub open spec fn style_of(url: Seq<char>) -> Seq<char> {
    STYLE_PREFIX@ + url + STYLE_SUFFIX@
}

/// The CSS classes for a face.
pub open spec fn class_of(face: ButtonFace) -> Seq<char> {
    match face {
        ButtonFace::Bottom => FLIPPED_CLASS@,
        _ => BASE_CLASS@,
    }
}

/// Where `url` stands in `faces`, if it is there: its first position.
fn position(faces: &Vec<String>, url: &String) -> (r: Option<usize>)
    ensures
        match r {
            Some(i) => i < faces@.len() && faces@[i as int]@ == url@ && forall|j: int|
                0 <= j < i ==> faces@[j]@ != url@,
            None => !texts(faces@).contains(url@),
        },
{
    let mut i: usize = 0;
    while i < faces.len()
        invariant
            i <= faces@.len(),
            forall|j: int| 0 <= j < i ==> faces@[j]@ != url@,
        decreases faces@.len() - i,
    {
        if faces[i] == *url {
            return Some(i);
        }
        i += 1;
    }
    assert forall|j: int| 0 <= j < texts(faces@).len() implies texts(faces@)[j] != url@ by {}
    None
}

/// Selecting the same reference twice adds it at most once: the second
/// selection leaves the list as the first left it, and both show the same
/// custom face.
pub proof fn lemma_select_twice(faces: Seq<Seq<char>>, r: Seq<char>)
    requires
        faces.no_duplicates(),
    ensures
        add_or_select(add_or_select(faces, r).0, r).0 == add_or_select(faces, r).0,
        add_or_select(add_or_select(faces, r).0, r).1 == add_or_select(faces, r).1,
        add_or_select(faces, r).0.len() <= faces.len() + 1,
{
    if !faces.contains(r) {
        let f1 = faces.push(r);
        assert(f1[faces.len() as int] == r);
        assert(f1.contains(r));
        let k = f1.index_of(r);
        if k != faces.len() {
            assert(faces[k] == r);
        }
    }
}

/// Loading no references changes nothing: the list stays as it was, so the
/// load reports that the view did not change.
pub proof fn lemma_load_nothing(faces: Seq<Seq<char>>)
    ensures
        merged(faces, Seq::<Seq<char>>::empty()) == faces,
{
}

/// Loading two distinct references into an empty list gives exactly those
/// two, the first of them first.
pub proof fn lemma_load_two(a: Seq<char>, b: Seq<char>)
    requires
        a != b,
    ensures
        merged(Seq::<Seq<char>>::empty(), seq![a, b]) == seq![a, b],
{
    let e = Seq::<Seq<char>>::empty();
    let refs = seq![a, b];
    let one = seq![a];
    assert(one.drop_last() =~= e);
    assert(merged(e, one.drop_last()) == e);
    assert(!e.contains(a));
    assert(e.push(a) =~= one);
    assert(one.last() == a);
    assert(merged(e, one) == one);
    assert(refs.drop_last() =~= one);
    assert(refs.last() == b);
    assert(!one.contains(b)) by {
        if one.contains(b) {
            assert(one[0] == b);
        }
    }
    assert(seq![a].push(b) =~= refs);
}

/// The clickable button: the face it shows and the custom images it can show,
/// in the order in which they were added, each at most once.
pub struct Button {
    button_face: ButtonFace,
    custom_faces: Vec<String>,
}

impl Button {
    /// The face shown.
    pub closed spec fn shown(&self) -> ButtonFace {
        self.button_face
    }

    /// The references of the custom faces.
    pub closed spec fn faces(&self) -> Seq<Seq<char>> {
        texts(self.custom_faces@)
    }

    /// The face points into the list, and no reference is in it twice.
    pub open spec fn wf(&self) -> bool {
        &&& self.shown().valid(self.faces().len())
        &&& self.faces().no_duplicates()
    }

    /// A button that shows its top and has no custom faces.
    pub fn new() -> (r: Button)
        ensures
            r.wf(),
            r.shown() == ButtonFace::Top,
            r.faces() == Seq::<Seq<char>>::empty(),
    {
        let r = Button { button_face: ButtonFace::Top, custom_faces: Vec::new() };
        assert(r.faces() =~= Seq::<Seq<char>>::empty());
        r
    }

    /// The face shown.
    pub fn face(&self) -> (r: ButtonFace)
        ensures
            r == self.shown(),
    {
        self.button_face
    }

    /// The references of the custom faces, in order.
    pub fn custom_faces(&self) -> (r: &Vec<String>)
        ensures
            texts(r@) == self.faces(),
    {
        &self.custom_faces
    }

    /// Flips to the next face of the tour.
    pub fn incr(&mut self)
        requires
            old(self).wf(),
        ensures
            final(self).wf(),
            final(self).faces() == old(self).faces(),
            final(self).shown() == old(self).shown().next(old(self).faces().len()),
    {
        self.button_face.incr(self.custom_faces.as_slice());
    }
}

impl Button {
    /// Shows the custom image at reference `url`: the entry already in the
    /// list if there is one, else a new entry appended at the end.
    pub fn add_custom(&mut self, url: String)
        requires
            old(self).wf(),
        ensures
            final(self).wf(),
            (final(self).faces(), final(self).shown()) == add_or_select(old(self).faces(), url@),
    {
        let ghost before = self.faces();
        match position(&self.custom_faces, &url) {
            Some(i) => {
                proof {
                    assert(before[i as int] == url@);
                    assert(before.contains(url@));
                    let k = before.index_of(url@);
                    assert(before[k] == url@);
                    assert(k == i);
                }
                self.button_face = ButtonFace::Custom(i);
            },
            None => {
                self.button_face = ButtonFace::Custom(self.custom_faces.len());
                self.custom_faces.push(url);
                proof {
                    assert(self.faces() =~= before.push(url@));
                }
            },
        }
    }
}

impl Button {
    /// Loads references kept from earlier sessions: each one not yet in the
    /// list is appended, in order. When any was appended the button shows the
    /// first of them and `true` says that the view changed; otherwise nothing
    /// changes and the result is `false`.
    pub fn add(&mut self, buttons: Vec<String>) -> (r: bool)
        requires
            old(self).wf(),
        ensures
            final(self).wf(),
            final(self).faces() == merged(old(self).faces(), texts(buttons@)),
            r == (final(self).faces().len() > old(self).faces().len()),
            r ==> final(self).shown() == ButtonFace::Custom(old(self).faces().len() as usize),
            !r ==> final(self).shown() == old(self).shown() && final(self).faces() == old(
                self,
            ).faces(),
    {
        let ghost before = self.faces();
        let ghost refs = texts(buttons@);
        let start = self.custom_faces.len();
        let mut i: usize = 0;
        while i < buttons.len()
            invariant
                0 <= i <= buttons@.len(),
                refs == texts(buttons@),
                self.button_face == old(self).button_face,
                start == before.len(),
                before == old(self).faces(),
                self.faces() == merged(before, refs.take(i as int)),
                self.faces().len() >= before.len(),
                !(self.faces().len() > before.len()) ==> self.faces() == before,
                self.wf(),
            decreases buttons@.len() - i,
        {
            let ghost prev = self.faces();
            proof {
                assert(refs.take(i + 1).drop_last() =~= refs.take(i as int));
                assert(refs.take(i + 1).last() == buttons@[i as int]@);
            }
            match position(&self.custom_faces, &buttons[i]) {
                Some(j) => {
                    proof {
                        assert(prev[j as int] == buttons@[i as int]@);
                        assert(prev.contains(buttons@[i as int]@));
                    }
                },
                None => {
                    self.custom_faces.push(buttons[i].clone());
                    proof {
                        assert(self.faces() =~= prev.push(buttons@[i as int]@));
                    }
                },
            }
            i += 1;
        }
        proof {
            assert(refs.take(buttons@.len() as int) =~= refs);
        }
        if self.custom_faces.len() > start {
            self.button_face = ButtonFace::Custom(start);
            true
        } else {
            false
        }
    }

    /// The CSS classes and the optional style that draw the face shown.
    pub fn class_and_style(&self) -> (r: (&'static str, Option<String>))
        requires
            self.wf(),
        ensures
            r.0@ == class_of(self.shown()),
            match self.shown() {
                ButtonFace::Custom(i) => r.1 is Some && r.1.unwrap()@ == style_of(
                    self.faces()[i as int],
                ),
                _ => r.1 is None,
            },
    {
        match self.button_face {
            ButtonFace::Top => (BASE_CLASS, None),
            ButtonFace::Bottom => (FLIPPED_CLASS, None),
            ButtonFace::Custom(i) => {
                let mut style = String::from_str(STYLE_PREFIX);
                style.append(self.custom_faces[i].as_str());
                style.append(STYLE_SUFFIX);
                (BASE_CLASS, Some(style))
            },
        }
    }
}

} // verus!
