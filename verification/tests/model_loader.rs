use wgpu_renderer::model_loader::{line_kind, parse_number, split, ObjDataType};
use wgpu_renderer::{ModelError, ModelLoader, ObjCorner, ObjModel, ObjNumbers, ObjSpan};

const QUAD: &str = "# a square\n\
v -1.0 -1.0 0.0\n\
v 1.0 -1.0 0.0\n\
v 1.0 1.0 0.0\n\
v -1.0 1.0 0.0\n\
vt 0.0 1.0\n\
vt 1.0 1.0\n\
vn 0.0 0.0 1.0\n\
s off\n\
f 1/1/1 2/2/1 3/2/1 4/1/1\n\
f 1 2/1 3\n";

fn text(data: &str, at: Option<ObjSpan>) -> &str {
    let at = at.unwrap();
    &data[at.start..at.end]
}

#[test]
fn load_obj() {
    let o = ModelLoader::load_obj(QUAD.as_bytes());
    assert_ne!(o, Err(ModelError::FileError));
    assert_ne!(o, Err(ModelError::DataError));
}

#[test]
fn fields_follow_the_separators() {
    let spans = |s: &str| -> Vec<(usize, usize)> {
        split(s.as_bytes(), 0, s.len(), b' ').iter().map(|x| (x.start, x.end)).collect()
    };
    assert_eq!(spans(""), vec![(0, 0)]);
    assert_eq!(spans("ab"), vec![(0, 2)]);
    assert_eq!(spans("a b"), vec![(0, 1), (2, 3)]);
    assert_eq!(spans("a  b "), vec![(0, 1), (2, 2), (3, 4), (5, 5)]);
    assert_eq!(spans(" "), vec![(0, 0), (1, 1)]);
    // inside bounds only
    let inner: Vec<(usize, usize)> =
        split(b"a b c d", 2, 5, b' ').iter().map(|x| (x.start, x.end)).collect();
    assert_eq!(inner, vec![(2, 3), (4, 5)]);
}

#[test]
fn numbers_are_digits_after_an_optional_plus() {
    let number = |s: &str| parse_number(s.as_bytes(), ObjSpan { start: 0, end: s.len() });
    assert_eq!(number("0"), Some(0));
    assert_eq!(number("42"), Some(42));
    assert_eq!(number("+42"), Some(42));
    assert_eq!(number("007"), Some(7));
    assert_eq!(number(""), None);
    assert_eq!(number("+"), None);
    assert_eq!(number("-1"), None);
    assert_eq!(number("1.5"), None);
    assert_eq!(number(" 1"), None);
    assert_eq!(number("1 "), None);
    assert_eq!(number("++1"), None);
    assert_eq!(number(&usize::MAX.to_string()), Some(usize::MAX));
    assert_eq!(number(&format!("{}0", usize::MAX)), None);
    assert_eq!(number("99999999999999999999999999999999999999999"), None);
    // it agrees with the standard parser
    for s in ["12", "+3", "x", "", "+", "00", "1e3", "18446744073709551616"] {
        assert_eq!(number(s), s.parse::<usize>().ok(), "{s:?}");
    }
    assert_eq!(parse_number(b"a12b", ObjSpan { start: 1, end: 3 }), Some(12));
}

#[test]
fn lines_are_told_apart_by_their_beginning() {
    let kind = |s: &str| line_kind(s.as_bytes(), ObjSpan { start: 0, end: s.len() });
    assert_eq!(kind("v 1 2 3"), ObjDataType::Vertex);
    assert_eq!(kind("vt 1 2"), ObjDataType::UV);
    assert_eq!(kind("vn 1 2 3"), ObjDataType::Normal);
    assert_eq!(kind("f 1 2 3"), ObjDataType::Index);
    assert_eq!(kind("v"), ObjDataType::Skipped);
    assert_eq!(kind("vt"), ObjDataType::Skipped);
    assert_eq!(kind("vp 1"), ObjDataType::Skipped);
    assert_eq!(kind(" v 1"), ObjDataType::Skipped);
    assert_eq!(kind("# v 1"), ObjDataType::Skipped);
    assert_eq!(kind(""), ObjDataType::Skipped);
}

#[test]
fn square_is_taken_apart() {
    let m = ModelLoader::load_obj(QUAD.as_bytes()).unwrap();
    assert_eq!((m.verts.len(), m.uvs.len(), m.normals.len()), (4, 2, 1));
    assert_eq!(text(QUAD, m.verts[1].x), "1.0");
    assert_eq!(text(QUAD, m.verts[1].y), "-1.0");
    assert_eq!(text(QUAD, m.verts[3].z), "0.0");
    assert_eq!(text(QUAD, m.uvs[1].x), "1.0");
    assert_eq!(m.uvs[1].z, None);
    let full = |p, u| ObjCorner { position: p, uv: Some(u), normal: Some(0) };
    // the square as two triangles: 1 2 3, then 3 4 1
    assert_eq!(
        m.corners[..6],
        [full(0, 0), full(1, 1), full(2, 1), full(2, 1), full(3, 0), full(0, 0)]
    );
}

#[test]
fn corners_may_leave_out_uv_and_normal() {
    let data = "v 0 0 0\nvt 0 0\nf 1 1/1";
    let m = ModelLoader::load_obj(data.as_bytes()).unwrap();
    assert_eq!(
        m.corners,
        vec![
            ObjCorner { position: 0, uv: None, normal: None },
            ObjCorner { position: 0, uv: Some(0), normal: None },
        ]
    );
    assert_eq!(
        ModelLoader::obj_index_parse(b"2/1/1/9", ObjSpan { start: 0, end: 7 }, &ObjModel {
            verts: vec![ObjNumbers { x: None, y: None, z: None }; 2],
            uvs: vec![ObjNumbers { x: None, y: None, z: None }],
            normals: vec![ObjNumbers { x: None, y: None, z: None }],
            corners: vec![],
        }),
        Ok(ObjCorner { position: 1, uv: Some(0), normal: Some(0) })
    );
}

#[test]
fn what_follows_the_fourth_corner_is_not_read() {
    let data = "v 0 0 0\nf 1 1 1 1 junk 99";
    let m = ModelLoader::load_obj(data.as_bytes()).unwrap();
    assert_eq!(m.corners.len(), 6);
}

#[test]
fn broken_texts_are_data_errors() {
    let fails = |s: &str| {
        assert_eq!(ModelLoader::load_obj(s.as_bytes()), Err(ModelError::DataError), "{s:?}");
    };
    // a face before its vertex
    fails("f 1 1 1\nv 0 0 0");
    // corners count from one
    fails("v 0 0 0\nf 0 1 1");
    fails("v 0 0 0\nf 1 2 1");
    fails("v 0 0 0\nf 1/1 1 1");
    fails("v 0 0 0\nvt 0 0\nf 1/1/1 1 1");
    // no number
    fails("v 0 0 0\nf 1 x 1");
    fails("v 0 0 0\nf 1  1");
    fails("v 0 0 0\nf 1//1 1 1");
    fails("v 0 0 0\nf 1/1/1/x 1 1");
    fails("v 0 0 0\nf 1 1 1 ");
    // too many numbers on a line
    fails("v 0 0 0 1");
    fails("vt 0 0 0");
    fails("vn 0 0 0 0");
    fails("v 1 2 3 ");
    // the numbers themselves are the caller's to read
    let m = ModelLoader::load_obj(b"v a b c\nvt\nvn \n").unwrap();
    assert_eq!(text("v a b c\nvt\nvn \n", m.verts[0].y), "b");
    assert!(m.uvs.is_empty());
    assert_eq!(m.normals.len(), 1);
    assert_eq!(text("v a b c\nvt\nvn \n", m.normals[0].x), "");
    assert_eq!(
        ModelLoader::load_obj(b""),
        Ok(ObjModel { verts: vec![], uvs: vec![], normals: vec![], corners: vec![] })
    );
}
