use flip_button::button::Button;
use flip_button::face::ButtonFace;

fn refs(names: &[&str]) -> Vec<String> {
    names.iter().map(|s| s.to_string()).collect()
}

#[test]
fn flip_without_custom_faces_alternates() {
    let mut b = Button::new();
    let mut seen = Vec::new();
    for _ in 0..6 {
        b.incr();
        seen.push(b.face());
    }
    assert_eq!(
        seen,
        vec![
            ButtonFace::Bottom,
            ButtonFace::Top,
            ButtonFace::Bottom,
            ButtonFace::Top,
            ButtonFace::Bottom,
            ButtonFace::Top
        ]
    );
    assert!(b.custom_faces().is_empty());
}

#[test]
fn flip_tour_with_three_custom_faces() {
    let mut b = Button::new();
    assert!(b.add(refs(&["blob:a", "blob:b", "blob:c"])));
    // the load shows the first new face; walk back to Top first
    assert_eq!(b.face(), ButtonFace::Custom(0));
    b.incr();
    b.incr();
    b.incr();
    assert_eq!(b.face(), ButtonFace::Top);
    let mut seen = Vec::new();
    for _ in 0..5 {
        b.incr();
        seen.push(b.face());
    }
    assert_eq!(
        seen,
        vec![
            ButtonFace::Bottom,
            ButtonFace::Custom(0),
            ButtonFace::Custom(1),
            ButtonFace::Custom(2),
            ButtonFace::Top
        ]
    );
}

#[test]
fn face_incr_on_a_slice() {
    let faces = refs(&["blob:x"]);
    let mut f = ButtonFace::Bottom;
    f.incr(&faces);
    assert_eq!(f, ButtonFace::Custom(0));
    f.incr(&faces);
    assert_eq!(f, ButtonFace::Top);
    let mut g = ButtonFace::Bottom;
    g.incr(&[]);
    assert_eq!(g, ButtonFace::Top);
}

#[test]
fn select_same_reference_twice() {
    let mut b = Button::new();
    b.add_custom("blob:one".to_string());
    assert_eq!(b.custom_faces().len(), 1);
    assert_eq!(b.face(), ButtonFace::Custom(0));
    b.add_custom("blob:one".to_string());
    assert_eq!(b.custom_faces().len(), 1);
    assert_eq!(b.face(), ButtonFace::Custom(0));
}

#[test]
fn select_existing_reference_moves_to_it() {
    let mut b = Button::new();
    b.add_custom("blob:one".to_string());
    b.add_custom("blob:two".to_string());
    assert_eq!(b.face(), ButtonFace::Custom(1));
    b.add_custom("blob:one".to_string());
    assert_eq!(b.face(), ButtonFace::Custom(0));
    assert_eq!(b.custom_faces(), &refs(&["blob:one", "blob:two"]));
}

#[test]
fn load_nothing_changes_nothing() {
    let mut b = Button::new();
    b.add_custom("blob:one".to_string());
    b.incr();
    assert_eq!(b.face(), ButtonFace::Top);
    assert!(!b.add(Vec::new()));
    assert_eq!(b.face(), ButtonFace::Top);
    assert_eq!(b.custom_faces(), &refs(&["blob:one"]));
}

#[test]
fn load_two_into_empty_list() {
    let mut b = Button::new();
    assert!(b.add(refs(&["blob:a", "blob:b"])));
    assert_eq!(b.face(), ButtonFace::Custom(0));
    assert_eq!(b.custom_faces(), &refs(&["blob:a", "blob:b"]));
}

#[test]
fn load_skips_references_already_present() {
    let mut b = Button::new();
    b.add_custom("blob:a".to_string());
    b.add_custom("blob:b".to_string());
    assert!(b.add(refs(&["blob:b", "blob:c", "blob:c", "blob:a", "blob:d"])));
    assert_eq!(b.custom_faces(), &refs(&["blob:a", "blob:b", "blob:c", "blob:d"]));
    assert_eq!(b.face(), ButtonFace::Custom(2));
}

#[test]
fn load_of_known_references_only_is_no_change() {
    let mut b = Button::new();
    b.add_custom("blob:a".to_string());
    b.incr();
    assert!(!b.add(refs(&["blob:a"])));
    assert_eq!(b.face(), ButtonFace::Top);
    assert_eq!(b.custom_faces().len(), 1);
}

#[test]
fn class_and_style_of_each_face() {
    let mut b = Button::new();
    assert_eq!(b.class_and_style(), ("button-wrapper examine", None));
    b.incr();
    assert_eq!(b.class_and_style(), ("button-wrapper examine flipped", None));
    b.add_custom("blob:http://localhost/42".to_string());
    assert_eq!(
        b.class_and_style(),
        (
            "button-wrapper examine",
            Some("background-image: url(\"blob:http://localhost/42\")".to_string())
        )
    );
}
