use vstd::prelude::*;

verus! {

/// Why a model could not be loaded.
#[derive(Clone, Copy, Debug, PartialEq, Eq, Structural)]
pub enum ModelError {
    /// The file could not be read.
    FileError,
    /// The text is no model.
    DataError,
}

/// The kinds of line of a model text.
#[derive(Clone, Copy, Debug, PartialEq, Eq, Structural)]
pub enum ObjDataType {
    Skipped,
    Vertex,
    UV,
    Normal,
    Index,
}

/// A run of bytes of the text: from `start` up to, not including, `end`.
#[derive(Clone, Copy, Debug, PartialEq, Eq, Structural)]
pub struct ObjSpan {
    pub start: usize,
    pub end: usize,
}

/// The numbers of one vertex, uv or normal line, each by its place in the
/// text. A component that the line does not give is absent.
#[derive(Clone, Copy, Debug, PartialEq, Eq, Structural)]
pub struct ObjNumbers {
    pub x: Option<ObjSpan>,
    pub y: Option<ObjSpan>,
    pub z: Option<ObjSpan>,
}

/// One corner of a face: the positions, counted from zero, of its vertex,
/// its uv and its normal among the lines of their kind.
#[derive(Clone, Copy, Debug, PartialEq, Eq, Structural)]
pub struct ObjCorner {
    pub position: usize,
    pub uv: Option<usize>,
    pub normal: Option<usize>,
}

/// A model text taken apart: the vertex, uv and normal lines in the order
/// of the text, and the corners of its faces.
#[derive(Clone, Debug, PartialEq, Eq)]
pub struct ObjModel {
    pub verts: Vec<ObjNumbers>,
    pub uvs: Vec<ObjNumbers>,
    pub normals: Vec<ObjNumbers>,
    pub corners: Vec<ObjCorner>,
}

/// A model as plain values.
pub struct ObjView {
    pub verts: Seq<ObjNumbers>,
    pub uvs: Seq<ObjNumbers>,
    pub normals: Seq<ObjNumbers>,
    pub corners: Seq<ObjCorner>,
}

impl View for ObjModel {
    type V = ObjView;

    open spec fn view(&self) -> ObjView {
        ObjView {
            verts: self.verts@,
            uvs: self.uvs@,
            normals: self.normals@,
            corners: self.corners@,
        }
    }
}

/// The byte that ends a line.
pub const NEWLINE: u8 = 10;

/// The byte between the parts of a line.
pub const SPACE: u8 = 32;

/// The byte between the parts of a corner.
pub const SLASH: u8 = 47;

/// The sign that a number may begin with.
pub const PLUS: u8 = 43;

/// The digit zero.
pub const ZERO: u8 = 48;

/// The span between two places of the text.
pub open spec fn span(start: int, end: int) -> ObjSpan {
    ObjSpan { start: start as usize, end: end as usize }
}

/// The fields of the text between `at` and `end`, where the field at hand
/// began at `start`: a field ends before each separator and at `end`, and
/// the next field begins behind the separator. A separator at the very end
/// is followed by one more, empty field.
pub open spec fn split_spans(s: Seq<u8>, start: int, at: int, end: int, sep: u8) -> Seq<ObjSpan>
    decreases end - at,
{
    if at >= end {
        seq![span(start, end)]
    } else if s[at] == sep {
        seq![span(start, at)] + split_spans(s, at + 1, at + 1, end, sep)
    } else {
        split_spans(s, start, at + 1, end, sep)
    }
}

/// The fields of the text between `from` and `end`.
pub open spec fn fields(s: Seq<u8>, from: int, end: int, sep: u8) -> Seq<ObjSpan> {
    split_spans(s, from, from, end, sep)
}

/// The value of a run of decimal digits.
pub open spec fn digits_value(s: Seq<u8>, from: int, end: int) -> int
    decreases end - from,
{
    if end <= from {
        0
    } else {
        digits_value(s, from, end - 1) * 10 + (s[end - 1] - ZERO)
    }
}

/// Every byte of the run is a decimal digit.
pub open spec fn all_digits(s: Seq<u8>, from: int, end: int) -> bool {
    forall|i: int| from <= i < end ==> ZERO <= #[trigger] s[i] <= ZERO + 9
}

/// Where the digits of a number begin: behind its sign, if it has one.
pub open spec fn digits_start(s: Seq<u8>, at: ObjSpan) -> int {
    if at.start < at.end && s[at.start as int] == PLUS {
        at.start + 1
    } else {
        at.start as int
    }
}

/// The number that a span of the text spells: an optional plus sign, then
/// one decimal digit or more, and nothing else. A number that does not fit
/// the machine's word is none.
pub open spec fn number_at(s: Seq<u8>, at: ObjSpan) -> Option<usize> {
    let from = digits_start(s, at);
    if from < at.end && all_digits(s, from, at.end as int) && digits_value(s, from, at.end as int)
        <= usize::MAX {
        Some(digits_value(s, from, at.end as int) as usize)
    } else {
        None
    }
}

/// The place, counted from zero, that a number counted from one names
/// among `count` lines; none where it names no line.
pub open spec fn one_based(n: Option<usize>, count: int) -> Option<usize> {
    match n {
        Some(k) if 1 <= k <= count => Some((k - 1) as usize),
        _ => None,
    }
}

/// The corner that a part of a face line spells, given the lines read so
/// far. Its parts are numbers between slashes: the vertex, then the uv,
/// then the normal. Each must be a number, and each of the first three must
/// name a line that was read before.
pub open spec fn corner_at(s: Seq<u8>, token: ObjSpan, model: ObjView) -> Result<
    ObjCorner,
    ModelError,
> {
    let parts = fields(s, token.start as int, token.end as int, SLASH);
    let position = one_based(number_at(s, parts[0]), model.verts.len() as int);
    let uv = one_based(number_at(s, parts[1]), model.uvs.len() as int);
    let normal = one_based(number_at(s, parts[2]), model.normals.len() as int);
    if exists|i: int| 0 <= i < parts.len() && number_at(s, #[trigger] parts[i]) is None {
        Err(ModelError::DataError)
    } else if position is None || (parts.len() >= 2 && uv is None) || (parts.len() >= 3 && normal
        is None) {
        Err(ModelError::DataError)
    } else {
        Ok(
            ObjCorner {
                position: position->0,
                uv: if parts.len() >= 2 {
                    uv
                } else {
                    None
                },
                normal: if parts.len() >= 3 {
                    normal
                } else {
                    None
                },
            },
        )
    }
}

/// The kind of a line, by the way it begins.
pub open spec fn kind_of(s: Seq<u8>, line: ObjSpan) -> ObjDataType {
    let a = line.start as int;
    let len = line.end - line.start;
    if len >= 2 && s[a] == 118 && s[a + 1] == SPACE {
        ObjDataType::Vertex
    } else if len >= 3 && s[a] == 118 && s[a + 1] == 116 && s[a + 2] == SPACE {
        ObjDataType::UV
    } else if len >= 3 && s[a] == 118 && s[a + 1] == 110 && s[a + 2] == SPACE {
        ObjDataType::Normal
    } else if len >= 2 && s[a] == 102 && s[a + 1] == SPACE {
        ObjDataType::Index
    } else {
        ObjDataType::Skipped
    }
}

/// The part of a line behind its first `k` parts, if the line has it.
pub open spec fn part(tokens: Seq<ObjSpan>, k: int) -> Option<ObjSpan> {
    if 0 <= k < tokens.len() {
        Some(tokens[k])
    } else {
        None
    }
}

/// The numbers of a line that has at most `limit` of them.
pub open spec fn numbers_of(tokens: Seq<ObjSpan>, limit: int) -> Result<ObjNumbers, ModelError> {
    if tokens.len() > limit + 1 {
        Err(ModelError::DataError)
    } else {
        Ok(ObjNumbers { x: part(tokens, 1), y: part(tokens, 2), z: part(tokens, 3) })
    }
}

/// The corners that a face line adds. A face of three corners is one
/// triangle; a fourth corner adds the triangle that closes the
/// quadrangle; what follows a fourth corner is not read.
pub open spec fn face_corners(s: Seq<u8>, tokens: Seq<ObjSpan>, model: ObjView) -> Result<
    Seq<ObjCorner>,
    ModelError,
> {
    let n = if tokens.len() > 5 {
        4int
    } else {
        tokens.len() - 1
    };
    if exists|i: int| 1 <= i <= n && corner_at(s, #[trigger] tokens[i], model) is Err {
        Err(ModelError::DataError)
    } else {
        let c = |i: int| corner_at(s, tokens[i], model)->Ok_0;
        Ok(
            if n <= 0 {
                Seq::empty()
            } else if n == 1 {
                seq![c(1)]
            } else if n == 2 {
                seq![c(1), c(2)]
            } else if n == 3 {
                seq![c(1), c(2), c(3)]
            } else {
                seq![c(1), c(2), c(3), c(3), c(4), c(1)]
            },
        )
    }
}

/// The model after one more line.
pub open spec fn after_line(s: Seq<u8>, line: ObjSpan, model: ObjView) -> Result<
    ObjView,
    ModelError,
> {
    let tokens = fields(s, line.start as int, line.end as int, SPACE);
    match kind_of(s, line) {
        ObjDataType::Skipped => Ok(model),
        ObjDataType::Vertex => match numbers_of(tokens, 3) {
            Ok(v) => Ok(ObjView { verts: model.verts.push(v), ..model }),
            Err(e) => Err(e),
        },
        ObjDataType::UV => match numbers_of(tokens, 2) {
            Ok(v) => Ok(ObjView { uvs: model.uvs.push(v), ..model }),
            Err(e) => Err(e),
        },
        ObjDataType::Normal => match numbers_of(tokens, 3) {
            Ok(v) => Ok(ObjView { normals: model.normals.push(v), ..model }),
            Err(e) => Err(e),
        },
        ObjDataType::Index => match face_corners(s, tokens, model) {
            Ok(c) => Ok(ObjView { corners: model.corners + c, ..model }),
            Err(e) => Err(e),
        },
    }
}

/// The model after the first `n` lines.
pub open spec fn after_lines(s: Seq<u8>, lines: Seq<ObjSpan>, n: int) -> Result<ObjView, ModelError>
    decreases n,
{
    if n <= 0 {
        Ok(
            ObjView {
                verts: Seq::empty(),
                uvs: Seq::empty(),
                normals: Seq::empty(),
                corners: Seq::empty(),
            },
        )
    } else {
        match after_lines(s, lines, n - 1) {
            Ok(model) => after_line(s, lines[n - 1], model),
            Err(e) => Err(e),
        }
    }
}

/// The model that a text spells, or why it spells none.
pub open spec fn obj_model(s: Seq<u8>) -> Result<ObjView, ModelError> {
    after_lines(
        s,
        fields(s, 0, s.len() as int, NEWLINE),
        fields(s, 0, s.len() as int, NEWLINE).len() as int,
    )
}

/// The view of the outcome of loading a model.
pub open spec fn loaded_view(r: Result<ObjModel, ModelError>) -> Result<ObjView, ModelError> {
    match r {
        Ok(m) => Ok(m@),
        Err(e) => Err(e),
    }
}

/// The spans of the numbers lie inside a text of `len` bytes.
pub open spec fn numbers_inside(n: ObjNumbers, len: int) -> bool {
    &&& n.x matches Some(at) ==> at.start <= at.end <= len
    &&& n.y matches Some(at) ==> at.start <= at.end <= len
    &&& n.z matches Some(at) ==> at.start <= at.end <= len
}

impl ObjView {
    /// The model hangs together: every number lies inside the text, and
    /// every corner names lines that the model holds.
    pub open spec fn sound(self, len: int) -> bool {
        &&& forall|i: int| 0 <= i < self.verts.len() ==> numbers_inside(#[trigger] self.verts[i], len)
        &&& forall|i: int| 0 <= i < self.uvs.len() ==> numbers_inside(#[trigger] self.uvs[i], len)
        &&& forall|i: int|
            0 <= i < self.normals.len() ==> numbers_inside(#[trigger] self.normals[i], len)
        &&& forall|i: int|
            0 <= i < self.corners.len() ==> {
                &&& (#[trigger] self.corners[i]).position < self.verts.len()
                &&& self.corners[i].uv matches Some(u) ==> u < self.uvs.len()
                &&& self.corners[i].normal matches Some(n) ==> n < self.normals.len()
            }
    }
}

/// Every span lies inside the text, between the two bounds.
pub open spec fn spans_inside(spans: Seq<ObjSpan>, from: int, end: int) -> bool {
    forall|i: int| 0 <= i < spans.len() ==> from <= (#[trigger] spans[i]).start <= spans[i].end <= end
}

/// Splits a stretch of the text into its fields.
pub fn split(data: &[u8], from: usize, end: usize, sep: u8) -> (r: Vec<ObjSpan>)
    requires
        from <= end <= data@.len(),
    ensures
        r@ == fields(data@, from as int, end as int, sep),
        r@.len() >= 1,
        spans_inside(r@, from as int, end as int),
{
    let mut out: Vec<ObjSpan> = Vec::new();
    let mut start = from;
    let mut at = from;
    while at < end
        invariant
            from <= start <= at <= end <= data@.len(),
            out@ + split_spans(data@, start as int, at as int, end as int, sep) == fields(
                data@,
                from as int,
                end as int,
                sep,
            ),
            spans_inside(out@, from as int, end as int),
        decreases end - at,
    {
        let ghost before = out@;
        if data[at] == sep {
            out.push(ObjSpan { start, end: at });
            assert(out@ + split_spans(data@, at + 1, at + 1, end as int, sep) =~= before
                + split_spans(data@, start as int, at as int, end as int, sep));
            start = at + 1;
        }
        at = at + 1;
    }
    let ghost before = out@;
    out.push(ObjSpan { start, end });
    assert(out@ =~= before + split_spans(data@, start as int, at as int, end as int, sep));
    out
}

/// A run of digits is worth at least as much as any run that it begins
/// with.
proof fn lemma_digits_grow(s: Seq<u8>, from: int, k: int, end: int)
    requires
        from <= k <= end,
        all_digits(s, from, end),
    ensures
        0 <= digits_value(s, from, k) <= digits_value(s, from, end),
    decreases end - k,
{
    if k < end {
        lemma_digits_grow(s, from, k + 1, end);
        lemma_digits_start_at_zero(s, from, k);
        assert(digits_value(s, from, k + 1) == digits_value(s, from, k) * 10 + (s[k] - ZERO));
    } else {
        lemma_digits_start_at_zero(s, from, k);
    }
}

/// A run of digits is worth nothing less than zero.
proof fn lemma_digits_start_at_zero(s: Seq<u8>, from: int, end: int)
    requires
        from <= end,
        all_digits(s, from, end),
    ensures
        0 <= digits_value(s, from, end),
    decreases end - from,
{
    if from < end {
        lemma_digits_start_at_zero(s, from, end - 1);
    }
}

/// Reads the number that a span of the text spells.
pub fn parse_number(data: &[u8], at: ObjSpan) -> (r: Option<usize>)
    requires
        at.start <= at.end <= data@.len(),
    ensures
        r == number_at(data@, at),
{
    let mut i = at.start;
    if i < at.end && data[i] == PLUS {
        i = i + 1;
    }
    let from = i;
    if from >= at.end {
        return None;
    }
    let mut value: usize = 0;
    while i < at.end
        invariant
            from <= i <= at.end <= data@.len(),
            from == digits_start(data@, at),
            all_digits(data@, from as int, i as int),
            value == digits_value(data@, from as int, i as int),
        decreases at.end - i,
    {
        let b = data[i];
        if b < ZERO || b > ZERO + 9 {
            assert(!all_digits(data@, from as int, at.end as int));
            return None;
        }
        let digit = (b - ZERO) as usize;
        let next = match value.checked_mul(10) {
            Some(tens) => tens.checked_add(digit),
            None => None,
        };
        match next {
            Some(v) => {
                value = v;
            },
            None => {
                proof {
                    if all_digits(data@, from as int, at.end as int) {
                        lemma_digits_grow(data@, from as int, i + 1, at.end as int);
                    }
                }
                return None;
            },
        }
        i = i + 1;
    }
    Some(value)
}

/// The place that a number counted from one names among `count` lines.
fn place(n: usize, count: usize) -> (r: Option<usize>)
    ensures
        r == one_based(Some(n), count as int),
{
    if 1 <= n && n <= count {
        Some(n - 1)
    } else {
        None
    }
}

/// Reads the numbers of every part, or finds a part that is no number.
fn parse_parts(data: &[u8], parts: &Vec<ObjSpan>) -> (r: Option<Vec<usize>>)
    requires
        spans_inside(parts@, 0, data@.len() as int),
    ensures
        match r {
            Some(numbers) => numbers@.len() == parts@.len() && forall|i: int|
                0 <= i < parts@.len() ==> number_at(data@, #[trigger] parts@[i]) == Some(
                    numbers@[i],
                ),
            None => exists|i: int|
                0 <= i < parts@.len() && number_at(data@, #[trigger] parts@[i]) is None,
        },
{
    let mut numbers: Vec<usize> = Vec::new();
    let mut i: usize = 0;
    while i < parts.len()
        invariant
            i <= parts@.len(),
            spans_inside(parts@, 0, data@.len() as int),
            numbers@.len() == i,
            forall|k: int|
                0 <= k < i ==> number_at(data@, #[trigger] parts@[k]) == Some(numbers@[k]),
        decreases parts@.len() - i,
    {
        match parse_number(data, parts[i]) {
            Some(n) => {
                numbers.push(n);
            },
            None => {
                return None;
            },
        }
        i = i + 1;
    }
    Some(numbers)
}

/// Reads models from their text.
#[derive(Debug)]
pub struct ModelLoader;

impl ModelLoader {
    /// Reads one corner of a face.
    pub fn obj_index_parse(data: &[u8], token: ObjSpan, model: &ObjModel) -> (r: Result<
        ObjCorner,
        ModelError,
    >)
        requires
            token.start <= token.end <= data@.len(),
        ensures
            r == corner_at(data@, token, model@),
    {
        let parts = split(data, token.start, token.end, SLASH);
        let numbers = match parse_parts(data, &parts) {
            Some(numbers) => numbers,
            None => {
                return Err(ModelError::DataError);
            },
        };
        let position = match place(numbers[0], model.verts.len()) {
            Some(p) => p,
            None => {
                return Err(ModelError::DataError);
            },
        };
        let mut uv: Option<usize> = None;
        if parts.len() >= 2 {
            uv = place(numbers[1], model.uvs.len());
            if uv.is_none() {
                return Err(ModelError::DataError);
            }
        }
        let mut normal: Option<usize> = None;
        if parts.len() >= 3 {
            normal = place(numbers[2], model.normals.len());
            if normal.is_none() {
                return Err(ModelError::DataError);
            }
        }
        Ok(ObjCorner { position, uv, normal })
    }

    /// Takes a model text apart. A line that begins with `v`, `vt` or `vn`
    /// and a blank gives the places of its numbers; a line that begins
    /// with `f` and a blank gives the corners of one or two triangles;
    /// every other line is skipped. The numbers of the first three kinds
    /// are left to be read by the caller.
    pub fn load_obj(data: &[u8]) -> (r: Result<ObjModel, ModelError>)
        ensures
            loaded_view(r) == obj_model(data@),
            r matches Ok(model) ==> model@.sound(data@.len() as int),
    {
        let lines = split(data, 0, data.len(), NEWLINE);
        let mut model = ObjModel {
            verts: Vec::new(),
            uvs: Vec::new(),
            normals: Vec::new(),
            corners: Vec::new(),
        };
        let mut k: usize = 0;
        while k < lines.len()
            invariant
                k <= lines@.len(),
                lines@ == fields(data@, 0, data@.len() as int, NEWLINE),
                spans_inside(lines@, 0, data@.len() as int),
                after_lines(data@, lines@, k as int) == Ok::<ObjView, ModelError>(model@),
                model@.sound(data@.len() as int),
            decreases lines@.len() - k,
        {
            match add_line(data, lines[k], model) {
                Ok(next) => {
                    model = next;
                },
                Err(e) => {
                    proof {
                        lemma_error_stays(data@, lines@, k + 1, lines@.len() as int);
                    }
                    return Err(e);
                },
            }
            k = k + 1;
        }
        Ok(model)
    }
}

/// Once the first lines of a text fail, the text fails in the same way.
pub proof fn lemma_error_stays(s: Seq<u8>, lines: Seq<ObjSpan>, n: int, m: int)
    requires
        0 <= n <= m,
        after_lines(s, lines, n) is Err,
    ensures
        after_lines(s, lines, m) == after_lines(s, lines, n),
    decreases m - n,
{
    if n < m {
        lemma_error_stays(s, lines, n, m - 1);
    }
}

/// The kind of a line.
pub fn line_kind(data: &[u8], line: ObjSpan) -> (kind: ObjDataType)
    requires
        line.start <= line.end <= data@.len(),
    ensures
        kind == kind_of(data@, line),
{
    let a = line.start;
    let len = line.end - line.start;
    if len >= 2 && data[a] == 118 && data[a + 1] == SPACE {
        ObjDataType::Vertex
    } else if len >= 3 && data[a] == 118 && data[a + 1] == 116 && data[a + 2] == SPACE {
        ObjDataType::UV
    } else if len >= 3 && data[a] == 118 && data[a + 1] == 110 && data[a + 2] == SPACE {
        ObjDataType::Normal
    } else if len >= 2 && data[a] == 102 && data[a + 1] == SPACE {
        ObjDataType::Index
    } else {
        ObjDataType::Skipped
    }
}

/// The numbers of a line of at most `limit` numbers.
fn line_numbers(tokens: &Vec<ObjSpan>, limit: usize) -> (r: Result<ObjNumbers, ModelError>)
    requires
        limit <= 3,
    ensures
        r == numbers_of(tokens@, limit as int),
{
    if tokens.len() > limit + 1 {
        return Err(ModelError::DataError);
    }
    let x = if tokens.len() > 1 {
        Some(tokens[1])
    } else {
        None
    };
    let y = if tokens.len() > 2 {
        Some(tokens[2])
    } else {
        None
    };
    let z = if tokens.len() > 3 {
        Some(tokens[3])
    } else {
        None
    };
    Ok(ObjNumbers { x, y, z })
}

/// Reads the corners of a face line, or finds one that is none.
fn line_corners(data: &[u8], tokens: &Vec<ObjSpan>, model: &ObjModel) -> (r: Result<
    Vec<ObjCorner>,
    ModelError,
>)
    requires
        tokens@.len() >= 1,
        spans_inside(tokens@, 0, data@.len() as int),
    ensures
        match r {
            Ok(c) => face_corners(data@, tokens@, model@) == Ok::<Seq<ObjCorner>, ModelError>(c@),
            Err(e) => face_corners(data@, tokens@, model@) == Err::<Seq<ObjCorner>, ModelError>(e),
        },
{
    let n: usize = if tokens.len() > 5 {
        4
    } else {
        tokens.len() - 1
    };
    let mut read: Vec<ObjCorner> = Vec::new();
    let mut i: usize = 1;
    while i <= n
        invariant
            1 <= i <= n + 1,
            n < tokens@.len(),
            n <= 4,
            spans_inside(tokens@, 0, data@.len() as int),
            read@.len() == i - 1,
            forall|k: int|
                1 <= k < i ==> corner_at(data@, #[trigger] tokens@[k], model@) == Ok::<
                    ObjCorner,
                    ModelError,
                >(read@[k - 1]),
        decreases n + 1 - i,
    {
        match ModelLoader::obj_index_parse(data, tokens[i], model) {
            Ok(c) => {
                read.push(c);
            },
            Err(e) => {
                assert(corner_at(data@, tokens@[i as int], model@) is Err);
                return Err(ModelError::DataError);
            },
        }
        i = i + 1;
    }
    let mut out: Vec<ObjCorner> = Vec::new();
    if n >= 1 {
        out.push(read[0]);
    }
    if n >= 2 {
        out.push(read[1]);
    }
    if n >= 3 {
        out.push(read[2]);
    }
    if n >= 4 {
        out.push(read[2]);
        out.push(read[3]);
        out.push(read[0]);
    }
    proof {
        assert forall|k: int| 1 <= k <= n implies corner_at(
            data@,
            #[trigger] tokens@[k],
            model@,
        ) is Ok by {}
        let expected = face_corners(data@, tokens@, model@);
        assert(expected is Ok);
        assert(out@ =~= expected->Ok_0);
    }
    Ok(out)
}

/// Adds one line of the text to the model.
fn add_line(data: &[u8], line: ObjSpan, model: ObjModel) -> (r: Result<ObjModel, ModelError>)
    requires
        line.start <= line.end <= data@.len(),
        model@.sound(data@.len() as int),
    ensures
        loaded_view(r) == after_line(data@, line, model@),
        r matches Ok(next) ==> next@.sound(data@.len() as int),
{
    let mut model = model;
    let kind = line_kind(data, line);
    let tokens = split(data, line.start, line.end, SPACE);
    match kind {
        ObjDataType::Skipped => {},
        ObjDataType::Vertex => {
            match line_numbers(&tokens, 3) {
                Ok(v) => {
                    model.verts.push(v);
                },
                Err(e) => {
                    return Err(e);
                },
            }
        },
        ObjDataType::UV => {
            match line_numbers(&tokens, 2) {
                Ok(v) => {
                    model.uvs.push(v);
                },
                Err(e) => {
                    return Err(e);
                },
            }
        },
        ObjDataType::Normal => {
            match line_numbers(&tokens, 3) {
                Ok(v) => {
                    model.normals.push(v);
                },
                Err(e) => {
                    return Err(e);
                },
            }
        },
        ObjDataType::Index => {
            match line_corners(data, &tokens, &model) {
                Ok(c) => {
                    let mut c = c;
                    model.corners.append(&mut c);
                },
                Err(e) => {
                    return Err(e);
                },
            }
        },
    }
    Ok(model)
}

} // verus!
