use vstd::prelude::*;

verus! {

/// A custom-property value of a room, as far as the lobby rules read it.
pub enum PropValue {
    Text(String),
    Integer(i64),
    Boolean(bool),
    Other,
}

/// The mathematical value of a `PropValue`.
pub enum PropValueView {
    Text(Seq<char>),
    Integer(i64),
    Boolean(bool),
    Other,
}

impl View for PropValue {
    type V = PropValueView;

    open spec fn view(&self) -> PropValueView {
        match self {
            PropValue::Text(s) => PropValueView::Text(s@),
            PropValue::Integer(n) => PropValueView::Integer(*n),
            PropValue::Boolean(b) => PropValueView::Boolean(*b),
            PropValue::Other => PropValueView::Other,
        }
    }
}

/// One entry of a room's custom properties.
pub struct Property {
    pub key: String,
    pub value: PropValue,
}

impl View for Property {
    type V = (Seq<char>, PropValueView);

    open spec fn view(&self) -> (Seq<char>, PropValueView) {
        (self.key@, self.value@)
    }
}

/// An ordered property list, as a sequence of key and value.
pub type Props = Seq<(Seq<char>, PropValueView)>;

pub open spec fn props_view(ps: Seq<Property>) -> Props {
    ps.map_values(|p: Property| p@)
}

/// `i` is the position of the first entry whose key is `key`.
pub open spec fn first_key_at(ps: Props, key: Seq<char>, i: int) -> bool {
    &&& 0 <= i < ps.len()
    &&& ps[i].0 == key
    &&& forall|j: int| 0 <= j < i ==> ps[j].0 != key
}

pub open spec fn has_key(ps: Props, key: Seq<char>) -> bool {
    exists|i: int| first_key_at(ps, key, i)
}

pub open spec fn key_pos(ps: Props, key: Seq<char>) -> int {
    choose|i: int| first_key_at(ps, key, i)
}

/// The text held under `key`: `None` where the key is absent or its value is no text.
pub open spec fn text_of(ps: Props, key: Seq<char>) -> Option<Seq<char>> {
    if has_key(ps, key) {
        match ps[key_pos(ps, key)].1 {
            PropValueView::Text(s) => Some(s),
            _ => None,
        }
    } else {
        None
    }
}

/// `ps` with the text under `key` replaced by `t`; unchanged where `key` holds no text.
pub open spec fn with_text(ps: Props, key: Seq<char>, t: Seq<char>) -> Props {
    if text_of(ps, key) is Some {
        ps.update(key_pos(ps, key), (key, PropValueView::Text(t)))
    } else {
        ps
    }
}

/// `"[" + tag + "] "`, the marker put before a room's display name.
pub open spec fn bracket(tag: Seq<char>) -> Seq<char> {
    "["@ + tag + "] "@
}

pub open spec fn is_prefix_of(p: Seq<char>, s: Seq<char>) -> bool {
    p.len() <= s.len() && s.subrange(0, p.len() as int) == p
}

pub proof fn lemma_first_key_unique(ps: Props, key: Seq<char>, i: int, j: int)
    requires
        first_key_at(ps, key, i),
        first_key_at(ps, key, j),
    ensures
        i == j,
{
    if i < j {
        assert(ps[i].0 != key);
    } else if j < i {
        assert(ps[j].0 != key);
    }
}

/// Position of the first entry whose key is `key`.
pub fn find_key(ps: &Vec<Property>, key: &String) -> (r: Option<usize>)
    ensures
        match r {
            Some(i) => first_key_at(props_view(ps@), key@, i as int),
            None => !has_key(props_view(ps@), key@),
        },
{
    let ghost v = props_view(ps@);
    let mut i: usize = 0;
    while i < ps.len()
        invariant
            i <= ps.len(),
            v == props_view(ps@),
            forall|j: int| 0 <= j < i ==> v[j].0 != key@,
        decreases ps.len() - i,
    {
        if ps[i].key == *key {
            return Some(i);
        }
        i = i + 1;
    }
    proof {
        if has_key(v, key@) {
            let k = key_pos(v, key@);
            assert(v[k].0 == key@);
        }
    }
    None
}

/// Position of the entry that holds the text under `key`, if it holds text.
pub fn text_pos(ps: &Vec<Property>, key: &String) -> (r: Option<usize>)
    ensures
        r is Some <==> text_of(props_view(ps@), key@) is Some,
        r matches Some(i) ==> {
            &&& first_key_at(props_view(ps@), key@, i as int)
            &&& ps@[i as int].value matches PropValue::Text(s)
            &&& text_of(props_view(ps@), key@) == Some(s@)
        },
{
    match find_key(ps, key) {
        Some(i) => {
            proof {
                lemma_first_key_unique(props_view(ps@), key@, i as int, key_pos(props_view(ps@), key@));
            }
            match &ps[i].value {
                PropValue::Text(_) => Some(i),
                _ => None,
            }
        },
        None => None,
    }
}

/// A copy of the text under `key`, where `key` holds text.
pub fn get_text(ps: &Vec<Property>, key: &String) -> (r: Option<String>)
    ensures
        match r {
            Some(s) => text_of(props_view(ps@), key@) == Some(s@),
            None => text_of(props_view(ps@), key@) is None,
        },
{
    match text_pos(ps, key) {
        Some(i) => match &ps[i].value {
            PropValue::Text(s) => Some(s.clone()),
            _ => None,
        },
        None => None,
    }
}

/// Replaces the text under `key` by `t`, where `key` holds text.
pub fn set_text(ps: &mut Vec<Property>, key: &String, t: String)
    ensures
        props_view(final(ps)@) == with_text(props_view(old(ps)@), key@, t@),
{
    match text_pos(ps, key) {
        Some(i) => {
            let k = ps[i].key.clone();
            ps.set(i, Property { key: k, value: PropValue::Text(t) });
            assert(props_view(ps@) =~= props_view(old(ps)@).update(
                i as int,
                (key@, PropValueView::Text(t@)),
            ));
        },
        None => {},
    }
}

/// `"[" + tag + "] " + name`.
pub fn bracketed(tag: &str, name: &str) -> (r: String)
    ensures
        r@ == bracket(tag@) + name@,
{
    let mut r = String::from_str("[");
    r.append(tag);
    r.append("] ");
    r.append(name);
    r
}

/// Whether `p` is a prefix of `s`.
pub fn starts_with(s: &str, p: &str) -> (r: bool)
    ensures
        r == is_prefix_of(p@, s@),
{
    let n = p.unicode_len();
    if n > s.unicode_len() {
        return false;
    }
    let mut i: usize = 0;
    while i < n
        invariant
            n == p@.len(),
            n <= s@.len(),
            i <= n,
            forall|j: int| 0 <= j < i ==> s@[j] == p@[j],
        decreases n - i,
    {
        if s.get_char(i) != p.get_char(i) {
            assert(s@.subrange(0, n as int)[i as int] != p@[i as int]);
            return false;
        }
        i = i + 1;
    }
    assert(s@.subrange(0, n as int) =~= p@);
    true
}

pub fn copy_value(v: &PropValue) -> (r: PropValue)
    ensures
        r@ == v@,
{
    match v {
        PropValue::Text(s) => PropValue::Text(s.clone()),
        PropValue::Integer(n) => PropValue::Integer(*n),
        PropValue::Boolean(b) => PropValue::Boolean(*b),
        PropValue::Other => PropValue::Other,
    }
}

pub fn copy_props(ps: &Vec<Property>) -> (r: Vec<Property>)
    ensures
        props_view(r@) == props_view(ps@),
{
    let mut r: Vec<Property> = Vec::new();
    let mut i: usize = 0;
    while i < ps.len()
        invariant
            i <= ps.len(),
            r@.len() == i,
            forall|j: int| 0 <= j < i ==> r@[j]@ == ps@[j]@,
        decreases ps.len() - i,
    {
        r.push(Property { key: ps[i].key.clone(), value: copy_value(&ps[i].value) });
        i = i + 1;
    }
    assert(props_view(r@) =~= props_view(ps@));
    r
}

pub fn value_eq(a: &PropValue, b: &PropValue) -> (r: bool)
    ensures
        r == (a@ == b@),
{
    match (a, b) {
        (PropValue::Text(x), PropValue::Text(y)) => *x == *y,
        (PropValue::Integer(x), PropValue::Integer(y)) => *x == *y,
        (PropValue::Boolean(x), PropValue::Boolean(y)) => *x == *y,
        (PropValue::Other, PropValue::Other) => true,
        _ => false,
    }
}

/// Whether two property lists are equal entry for entry.
pub fn props_eq(a: &Vec<Property>, b: &Vec<Property>) -> (r: bool)
    ensures
        r == (props_view(a@) == props_view(b@)),
{
    if a.len() != b.len() {
        proof {
            assert(props_view(a@).len() != props_view(b@).len());
        }
        return false;
    }
    let mut i: usize = 0;
    while i < a.len()
        invariant
            a.len() == b.len(),
            i <= a.len(),
            forall|j: int| 0 <= j < i ==> a@[j]@ == b@[j]@,
        decreases a.len() - i,
    {
        if !(a[i].key == b[i].key) || !value_eq(&a[i].value, &b[i].value) {
            proof {
                assert(props_view(a@)[i as int] != props_view(b@)[i as int]);
            }
            return false;
        }
        i = i + 1;
    }
    assert(props_view(a@) =~= props_view(b@));
    true
}

} // verus!
