use vstd::prelude::*;
use vstd::string::StringSliceAdditionalSpecFns;
use crate::gltexture::{GL_BYTE, GL_HALF_FLOAT, GL_SHORT, GL_UNSIGNED_BYTE, GL_UNSIGNED_SHORT};
use crate::glshader::{GL_DOUBLE, GL_FLOAT, GL_INT, GL_UNSIGNED_INT};

verus! {

/// `p` occurs in `s` starting at `i`.
pub open spec fn occurs_at(s: Seq<u8>, p: Seq<u8>, i: int) -> bool {
    0 <= i && i + p.len() <= s.len() && s.subrange(i, i + p.len()) == p
}

/// `p` occurs somewhere in `s`.
pub open spec fn has_infix(s: Seq<u8>, p: Seq<u8>) -> bool {
    exists|i: int| occurs_at(s, p, i)
}

/// `s` starts with `p`.
pub open spec fn has_prefix(s: Seq<u8>, p: Seq<u8>) -> bool {
    occurs_at(s, p, 0)
}

/// `s` ends with `p`.
pub open spec fn has_suffix(s: Seq<u8>, p: Seq<u8>) -> bool {
    occurs_at(s, p, s.len() - p.len())
}

fn matches_at(s: &[u8], p: &Vec<u8>, i: usize) -> (r: bool)
    requires
        i + p@.len() <= s@.len(),
    ensures
        r == occurs_at(s@, p@, i as int),
{
    let n = s.len();
    let mut k: usize = 0;
    while k < p.len()
        invariant
            n == s@.len(),
            i + p@.len() <= s@.len(),
            k <= p@.len(),
            forall|j: int| 0 <= j < k ==> s@[i + j] == p@[j],
        decreases p@.len() - k,
    {
        if s[i + k] != p[k] {
            assert(s@.subrange(i as int, i + p@.len())[k as int] != p@[k as int]);
            return false;
        }
        k = k + 1;
    }
    assert(s@.subrange(i as int, i + p@.len()) =~= p@);
    true
}

fn contains(s: &[u8], p: &Vec<u8>) -> (r: bool)
    ensures
        r == has_infix(s@, p@),
{
    if p.len() > s.len() {
        return false;
    }
    if p.len() == 0 {
        assert(s@.subrange(0, 0) =~= p@);
        assert(occurs_at(s@, p@, 0));
        return true;
    }
    let n = s.len();
    let last = n - p.len();
    let mut i: usize = 0;
    while i <= last
        invariant
            n == s@.len(),
            last == s@.len() - p@.len(),
            p@.len() >= 1,
            i <= last + 1,
            forall|j: int| 0 <= j < i ==> !occurs_at(s@, p@, j),
        decreases last + 1 - i,
    {
        if matches_at(s, p, i) {
            return true;
        }
        i = i + 1;
    }
    assert forall|j: int| !occurs_at(s@, p@, j) by {
        if 0 <= j && j + p@.len() <= s@.len() {
            assert(j <= last);
        }
    }
    false
}

fn starts_with(s: &[u8], p: &Vec<u8>) -> (r: bool)
    ensures
        r == has_prefix(s@, p@),
{
    if p.len() > s.len() {
        false
    } else {
        matches_at(s, p, 0)
    }
}

fn ends_with(s: &[u8], p: &Vec<u8>) -> (r: bool)
    ensures
        r == has_suffix(s@, p@),
{
    if p.len() > s.len() {
        false
    } else {
        matches_at(s, p, s.len() - p.len())
    }
}

/// The GL component type, component count and column count of a vertex
/// attribute.
#[derive(Debug, Clone, Copy, PartialEq, Eq, Structural)]
pub struct DataGlType {
    pub data_type: u32,
    pub size: u32,
    pub rows: u32,
}

/// The bytes one component of GL type `data_type` takes, for the types a
/// vertex attribute can have.
pub open spec fn component_bytes(data_type: u32) -> Option<usize> {
    if data_type == GL_BYTE || data_type == GL_UNSIGNED_BYTE {
        Some(1)
    } else if data_type == GL_SHORT || data_type == GL_UNSIGNED_SHORT || data_type == GL_HALF_FLOAT {
        Some(2)
    } else if data_type == GL_INT || data_type == GL_UNSIGNED_INT || data_type == GL_FLOAT {
        Some(4)
    } else if data_type == GL_DOUBLE {
        Some(8)
    } else {
        None
    }
}

impl DataGlType {
    /// Whether the components are integers.
    pub fn is_integer(&self) -> (r: bool)
        ensures
            r == (self.data_type == GL_BYTE || self.data_type == GL_SHORT || self.data_type == GL_INT
                || self.data_type == GL_UNSIGNED_BYTE || self.data_type == GL_UNSIGNED_SHORT
                || self.data_type == GL_UNSIGNED_INT),
    {
        let t = self.data_type;
        t == GL_BYTE || t == GL_SHORT || t == GL_INT || t == GL_UNSIGNED_BYTE || t == GL_UNSIGNED_SHORT
            || t == GL_UNSIGNED_INT
    }

    /// Whether the components are double precision.
    pub fn is_double(&self) -> (r: bool)
        ensures
            r == (self.data_type == GL_DOUBLE),
    {
        self.data_type == GL_DOUBLE
    }

    /// The bytes the attribute takes.
    pub fn size_in_bytes(&self) -> (r: usize)
        requires
            component_bytes(self.data_type) is Some,
            component_bytes(self.data_type)->0 * self.size * self.rows <= usize::MAX,
        ensures
            r == component_bytes(self.data_type)->0 * self.size * self.rows,
    {
        let t = self.data_type;
        let bytes: usize = if t == GL_BYTE || t == GL_UNSIGNED_BYTE {
            1
        } else if t == GL_SHORT || t == GL_UNSIGNED_SHORT || t == GL_HALF_FLOAT {
            2
        } else if t == GL_INT || t == GL_UNSIGNED_INT || t == GL_FLOAT {
            4
        } else {
            8
        };
        assert(bytes * self.size <= bytes * self.size * self.rows || self.rows == 0) by (nonlinear_arith)
            requires
                bytes >= 1,
        ;
        if self.rows == 0 {
            return 0;
        }
        bytes * self.size as usize * self.rows as usize
    }
}

/// The GL type of a scalar member, by its Rust type name.
pub open spec fn scalar_gltype(t: Seq<u8>) -> Option<u32> {
    if t == seq![0x69u8, 0x38u8] {
        Some(GL_BYTE)
    } else if t == seq![0x69u8, 0x31u8, 0x36u8] {
        Some(GL_SHORT)
    } else if t == seq![0x69u8, 0x33u8, 0x32u8] {
        Some(GL_INT)
    } else if t == seq![0x75u8, 0x38u8] {
        Some(GL_UNSIGNED_BYTE)
    } else if t == seq![0x75u8, 0x31u8, 0x36u8] {
        Some(GL_UNSIGNED_SHORT)
    } else if t == seq![0x75u8, 0x33u8, 0x32u8] {
        Some(GL_UNSIGNED_INT)
    } else if t == seq![0x66u8, 0x31u8, 0x36u8] {
        Some(GL_HALF_FLOAT)
    } else if t == seq![0x66u8, 0x33u8, 0x32u8] {
        Some(GL_FLOAT)
    } else if t == seq![0x66u8, 0x36u8, 0x34u8] {
        Some(GL_DOUBLE)
    } else {
        None
    }
}

/// The GL component type of a vector member: by its component prefix, or
/// by its first letter.
pub open spec fn vec_component(t: Seq<u8>) -> Option<u32> {
    if has_prefix(t, seq![0x75u8, 0x33u8, 0x32u8]) {
        Some(GL_UNSIGNED_INT)
    } else if has_prefix(t, seq![0x75u8, 0x31u8, 0x36u8]) {
        Some(GL_UNSIGNED_SHORT)
    } else if has_prefix(t, seq![0x75u8, 0x38u8]) {
        Some(GL_UNSIGNED_BYTE)
    } else if has_prefix(t, seq![0x69u8, 0x33u8, 0x32u8]) {
        Some(GL_INT)
    } else if has_prefix(t, seq![0x69u8, 0x31u8, 0x36u8]) {
        Some(GL_SHORT)
    } else if has_prefix(t, seq![0x69u8, 0x38u8]) {
        Some(GL_BYTE)
    } else if t.len() == 0 {
        None
    } else if t[0] == 0x76u8 {
        Some(GL_FLOAT)
    } else if t[0] == 0x64u8 {
        Some(GL_DOUBLE)
    } else if t[0] == 0x62u8 {
        Some(GL_BYTE)
    } else if t[0] == 0x69u8 {
        Some(GL_INT)
    } else if t[0] == 0x75u8 {
        Some(GL_UNSIGNED_INT)
    } else {
        None
    }
}

/// The (columns, rows) of a matrix member: by its `CxR` suffix, or square
/// by its last digit.
pub open spec fn mat_shape(t: Seq<u8>) -> Option<(u32, u32)> {
    if has_suffix(t, seq![0x32u8, 0x78u8, 0x32u8]) {
        Some((2, 2))
    } else if has_suffix(t, seq![0x32u8, 0x78u8, 0x33u8]) {
        Some((2, 3))
    } else if has_suffix(t, seq![0x32u8, 0x78u8, 0x34u8]) {
        Some((2, 4))
    } else if has_suffix(t, seq![0x33u8, 0x78u8, 0x32u8]) {
        Some((3, 2))
    } else if has_suffix(t, seq![0x33u8, 0x78u8, 0x33u8]) {
        Some((3, 3))
    } else if has_suffix(t, seq![0x33u8, 0x78u8, 0x34u8]) {
        Some((3, 4))
    } else if has_suffix(t, seq![0x34u8, 0x78u8, 0x32u8]) {
        Some((4, 2))
    } else if has_suffix(t, seq![0x34u8, 0x78u8, 0x33u8]) {
        Some((4, 3))
    } else if has_suffix(t, seq![0x34u8, 0x78u8, 0x34u8]) {
        Some((4, 4))
    } else if t.len() == 0 {
        None
    } else if t.last() == 0x32u8 {
        Some((2, 2))
    } else if t.last() == 0x33u8 {
        Some((3, 3))
    } else if t.last() == 0x34u8 {
        Some((4, 4))
    } else {
        None
    }
}

/// The attribute type of a vertex member whose Rust type is named `t`
/// (scalars, and the vector, matrix and quaternion types of a GLM-style
/// library, in UTF-8 bytes); `None` for a name outside those.
pub open spec fn member_gltype(t: Seq<u8>) -> Option<DataGlType> {
    let double_or_float = if has_prefix(t, seq![0x64u8]) {
        GL_DOUBLE
    } else {
        GL_FLOAT
    };
    if scalar_gltype(t) is Some {
        Some(DataGlType { data_type: scalar_gltype(t)->0, size: 1, rows: 1 })
    } else if has_infix(t, seq![0x76u8, 0x65u8, 0x63u8]) {
        if vec_component(t) is Some && t.len() > 0 && 0x30u8 <= t.last() <= 0x39u8 {
            Some(DataGlType { data_type: vec_component(t)->0, size: (t.last() - 0x30u8) as u32, rows: 1 })
        } else {
            None
        }
    } else if has_infix(t, seq![0x6Du8, 0x61u8, 0x74u8]) {
        if let Some((columns, rows)) = mat_shape(t) {
            Some(DataGlType { data_type: double_or_float, size: columns, rows })
        } else {
            None
        }
    } else if has_infix(t, seq![0x71u8, 0x75u8, 0x61u8, 0x74u8]) {
        Some(DataGlType { data_type: double_or_float, size: 4, rows: 1 })
    } else {
        None
    }
}

fn equals(s: &[u8], p: &Vec<u8>) -> (r: bool)
    ensures
        r == (s@ == p@),
{
    if s.len() != p.len() {
        return false;
    }
    let r = matches_at(s, p, 0);
    assert(s@.subrange(0, s@.len() as int) =~= s@);
    r
}

fn scalar_of(t: &[u8]) -> (r: Option<u32>)
    ensures
        r == scalar_gltype(t@),
{
    let p = vec![0x69u8, 0x38u8];
    assert(p@ =~= seq![0x69u8, 0x38u8]);
    if equals(t, &p) {
        return Some(GL_BYTE);
    }
    let p = vec![0x69u8, 0x31u8, 0x36u8];
    assert(p@ =~= seq![0x69u8, 0x31u8, 0x36u8]);
    if equals(t, &p) {
        return Some(GL_SHORT);
    }
    let p = vec![0x69u8, 0x33u8, 0x32u8];
    assert(p@ =~= seq![0x69u8, 0x33u8, 0x32u8]);
    if equals(t, &p) {
        return Some(GL_INT);
    }
    let p = vec![0x75u8, 0x38u8];
    assert(p@ =~= seq![0x75u8, 0x38u8]);
    if equals(t, &p) {
        return Some(GL_UNSIGNED_BYTE);
    }
    let p = vec![0x75u8, 0x31u8, 0x36u8];
    assert(p@ =~= seq![0x75u8, 0x31u8, 0x36u8]);
    if equals(t, &p) {
        return Some(GL_UNSIGNED_SHORT);
    }
    let p = vec![0x75u8, 0x33u8, 0x32u8];
    assert(p@ =~= seq![0x75u8, 0x33u8, 0x32u8]);
    if equals(t, &p) {
        return Some(GL_UNSIGNED_INT);
    }
    let p = vec![0x66u8, 0x31u8, 0x36u8];
    assert(p@ =~= seq![0x66u8, 0x31u8, 0x36u8]);
    if equals(t, &p) {
        return Some(GL_HALF_FLOAT);
    }
    let p = vec![0x66u8, 0x33u8, 0x32u8];
    assert(p@ =~= seq![0x66u8, 0x33u8, 0x32u8]);
    if equals(t, &p) {
        return Some(GL_FLOAT);
    }
    let p = vec![0x66u8, 0x36u8, 0x34u8];
    assert(p@ =~= seq![0x66u8, 0x36u8, 0x34u8]);
    if equals(t, &p) {
        return Some(GL_DOUBLE);
    }
    None
}

fn vec_component_of(t: &[u8]) -> (r: Option<u32>)
    ensures
        r == vec_component(t@),
{
    let p = vec![0x75u8, 0x33u8, 0x32u8];
    assert(p@ =~= seq![0x75u8, 0x33u8, 0x32u8]);
    if starts_with(t, &p) {
        return Some(GL_UNSIGNED_INT);
    }
    let p = vec![0x75u8, 0x31u8, 0x36u8];
    assert(p@ =~= seq![0x75u8, 0x31u8, 0x36u8]);
    if starts_with(t, &p) {
        return Some(GL_UNSIGNED_SHORT);
    }
    let p = vec![0x75u8, 0x38u8];
    assert(p@ =~= seq![0x75u8, 0x38u8]);
    if starts_with(t, &p) {
        return Some(GL_UNSIGNED_BYTE);
    }
    let p = vec![0x69u8, 0x33u8, 0x32u8];
    assert(p@ =~= seq![0x69u8, 0x33u8, 0x32u8]);
    if starts_with(t, &p) {
        return Some(GL_INT);
    }
    let p = vec![0x69u8, 0x31u8, 0x36u8];
    assert(p@ =~= seq![0x69u8, 0x31u8, 0x36u8]);
    if starts_with(t, &p) {
        return Some(GL_SHORT);
    }
    let p = vec![0x69u8, 0x38u8];
    assert(p@ =~= seq![0x69u8, 0x38u8]);
    if starts_with(t, &p) {
        return Some(GL_BYTE);
    }
    if t.len() == 0 {
        return None;
    }
    let c = t[0];
    if c == 0x76 {
        return Some(GL_FLOAT);
    }
    if c == 0x64 {
        return Some(GL_DOUBLE);
    }
    if c == 0x62 {
        return Some(GL_BYTE);
    }
    if c == 0x69 {
        return Some(GL_INT);
    }
    if c == 0x75 {
        return Some(GL_UNSIGNED_INT);
    }
    None
}

fn mat_shape_of(t: &[u8]) -> (r: Option<(u32, u32)>)
    ensures
        r == mat_shape(t@),
{
    let p = vec![0x32u8, 0x78u8, 0x32u8];
    assert(p@ =~= seq![0x32u8, 0x78u8, 0x32u8]);
    if ends_with(t, &p) {
        return Some((2, 2));
    }
    let p = vec![0x32u8, 0x78u8, 0x33u8];
    assert(p@ =~= seq![0x32u8, 0x78u8, 0x33u8]);
    if ends_with(t, &p) {
        return Some((2, 3));
    }
    let p = vec![0x32u8, 0x78u8, 0x34u8];
    assert(p@ =~= seq![0x32u8, 0x78u8, 0x34u8]);
    if ends_with(t, &p) {
        return Some((2, 4));
    }
    let p = vec![0x33u8, 0x78u8, 0x32u8];
    assert(p@ =~= seq![0x33u8, 0x78u8, 0x32u8]);
    if ends_with(t, &p) {
        return Some((3, 2));
    }
    let p = vec![0x33u8, 0x78u8, 0x33u8];
    assert(p@ =~= seq![0x33u8, 0x78u8, 0x33u8]);
    if ends_with(t, &p) {
        return Some((3, 3));
    }
    let p = vec![0x33u8, 0x78u8, 0x34u8];
    assert(p@ =~= seq![0x33u8, 0x78u8, 0x34u8]);
    if ends_with(t, &p) {
        return Some((3, 4));
    }
    let p = vec![0x34u8, 0x78u8, 0x32u8];
    assert(p@ =~= seq![0x34u8, 0x78u8, 0x32u8]);
    if ends_with(t, &p) {
        return Some((4, 2));
    }
    let p = vec![0x34u8, 0x78u8, 0x33u8];
    assert(p@ =~= seq![0x34u8, 0x78u8, 0x33u8]);
    if ends_with(t, &p) {
        return Some((4, 3));
    }
    let p = vec![0x34u8, 0x78u8, 0x34u8];
    assert(p@ =~= seq![0x34u8, 0x78u8, 0x34u8]);
    if ends_with(t, &p) {
        return Some((4, 4));
    }
    if t.len() == 0 {
        return None;
    }
    let c = t[t.len() - 1];
    if c == 0x32 {
        return Some((2, 2));
    }
    if c == 0x33 {
        return Some((3, 3));
    }
    if c == 0x34 {
        return Some((4, 4));
    }
    None
}

/// The attribute type of a vertex member whose Rust type is named
/// `member_type`; `None` for an unsupported type name.
pub fn get_vertex_struct_member_gltype(member_type: &str) -> (r: Option<DataGlType>)
    ensures
        r == member_gltype(member_type.spec_bytes()),
{
    let t = member_type.as_bytes();
    let d = vec![0x64u8];
    assert(d@ =~= seq![0x64u8]);
    let double_or_float = if starts_with(t, &d) {
        GL_DOUBLE
    } else {
        GL_FLOAT
    };
    if let Some(data_type) = scalar_of(t) {
        return Some(DataGlType { data_type, size: 1, rows: 1 });
    }
    let vec_word = vec![0x76u8, 0x65u8, 0x63u8];
    assert(vec_word@ =~= seq![0x76u8, 0x65u8, 0x63u8]);
    let mat_word = vec![0x6Du8, 0x61u8, 0x74u8];
    assert(mat_word@ =~= seq![0x6Du8, 0x61u8, 0x74u8]);
    let quat_word = vec![0x71u8, 0x75u8, 0x61u8, 0x74u8];
    assert(quat_word@ =~= seq![0x71u8, 0x75u8, 0x61u8, 0x74u8]);
    if contains(t, &vec_word) {
        match vec_component_of(t) {
            Some(data_type) => {
                let last = t[t.len() - 1];
                if 0x30 <= last && last <= 0x39 {
                    Some(DataGlType { data_type, size: (last - 0x30) as u32, rows: 1 })
                } else {
                    None
                }
            },
            None => None,
        }
    } else if contains(t, &mat_word) {
        match mat_shape_of(t) {
            Some((size, rows)) => Some(DataGlType { data_type: double_or_float, size, rows }),
            None => None,
        }
    } else if contains(t, &quat_word) {
        Some(DataGlType { data_type: double_or_float, size: 4, rows: 1 })
    } else {
        None
    }
}

} // verus!
