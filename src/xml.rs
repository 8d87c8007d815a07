//! The parsed form of an XML document of the out-of-band exchange: a root
//! element with its namespace and attributes, holding a sequence of
//! elements whose content has been read as binary data.
use vstd::prelude::*;
use vstd::string::StrSliceExecFns;

verus! {

/// An attribute of the root element.
#[derive(Clone, Debug, Eq, PartialEq)]
pub struct Attribute {
    pub name: String,
    pub value: String,
}

/// An element nested in the root element, with its content.
#[derive(Clone, Debug, Eq, PartialEq)]
pub struct Element {
    pub name: String,
    pub content: Vec<u8>,
}

/// A document: the root element's namespace, name and attributes, and the
/// elements it holds, in document order.
#[derive(Clone, Debug, Eq, PartialEq)]
pub struct Document {
    pub namespace: String,
    pub name: String,
    pub attributes: Vec<Attribute>,
    pub elements: Vec<Element>,
}

/// The mathematical form of a document.
pub struct DocumentView {
    pub namespace: Seq<char>,
    pub name: Seq<char>,
    pub attributes: Seq<(Seq<char>, Seq<char>)>,
    pub elements: Seq<(Seq<char>, Seq<u8>)>,
}

pub open spec fn attributes_view(a: Seq<Attribute>) -> Seq<(Seq<char>, Seq<char>)> {
    a.map_values(|x: Attribute| (x.name@, x.value@))
}

pub open spec fn elements_view(e: Seq<Element>) -> Seq<(Seq<char>, Seq<u8>)> {
    e.map_values(|x: Element| (x.name@, x.content@))
}

impl View for Document {
    type V = DocumentView;

    open spec fn view(&self) -> DocumentView {
        DocumentView {
            namespace: self.namespace@,
            name: self.name@,
            attributes: attributes_view(self.attributes@),
            elements: elements_view(self.elements@),
        }
    }
}

/// The value of the attribute named `n`; where the name occurs more than
/// once, the last occurrence counts.
pub open spec fn attr_value(attrs: Seq<(Seq<char>, Seq<char>)>, n: Seq<char>) -> Option<
    Seq<char>,
>
    decreases attrs.len(),
{
    if attrs.len() == 0 {
        None
    } else if attrs.last().0 == n {
        Some(attrs.last().1)
    } else {
        attr_value(attrs.drop_last(), n)
    }
}

/// Whether every attribute's name is one of `known`.
pub open spec fn all_known(attrs: Seq<(Seq<char>, Seq<char>)>, known: Seq<Seq<char>>) -> bool {
    forall|i: int| 0 <= i < attrs.len() ==> known.contains(#[trigger] attrs[i].0)
}

/// Whether no two attributes have the same name.
pub open spec fn attrs_unique(attrs: Seq<(Seq<char>, Seq<char>)>) -> bool {
    forall|i: int, j: int| 0 <= i < j < attrs.len() ==> #[trigger] attrs[i].0 != #[trigger] attrs[j].0
}

/// Whether no two attributes have the same name.
pub fn attributes_unique(attrs: &Vec<Attribute>) -> (r: bool)
    ensures
        r == attrs_unique(attributes_view(attrs@)),
{
    let ghost av = attributes_view(attrs@);
    let mut j: usize = 0;
    while j < attrs.len()
        invariant
            j <= attrs@.len(),
            av == attributes_view(attrs@),
            forall|a: int, b: int| 0 <= a < b < j ==> #[trigger] av[a].0 != #[trigger] av[b].0,
        decreases attrs.len() - j,
    {
        let mut i: usize = 0;
        while i < j
            invariant
                i <= j,
                j < attrs@.len(),
                av == attributes_view(attrs@),
                forall|a: int, b: int| 0 <= a < b < j ==> #[trigger] av[a].0 != #[trigger] av[b].0,
                forall|a: int| 0 <= a < i ==> #[trigger] av[a].0 != av[j as int].0,
            decreases j - i,
        {
            if str_eq(attrs[i].name.as_str(), attrs[j].name.as_str()) {
                assert(av[i as int].0 == av[j as int].0);
                return false;
            }
            i = i + 1;
        }
        j = j + 1;
    }
    true
}

/// Whether two strings are equal.
pub fn str_eq(a: &str, b: &str) -> (r: bool)
    ensures
        r == (a@ == b@),
{
    let n = a.unicode_len();
    if n != b.unicode_len() {
        return false;
    }
    let mut i: usize = 0;
    while i < n
        invariant
            n == a@.len(),
            n == b@.len(),
            i <= n,
            forall|j: int| 0 <= j < i ==> a@[j] == b@[j],
        decreases n - i,
    {
        if a.get_char(i) != b.get_char(i) {
            return false;
        }
        i = i + 1;
    }
    assert(a@ =~= b@);
    true
}

/// A copy of a byte vector.
pub fn copy_bytes(v: &Vec<u8>) -> (r: Vec<u8>)
    ensures
        r@ == v@,
{
    let mut r: Vec<u8> = Vec::new();
    let mut i: usize = 0;
    while i < v.len()
        invariant
            i <= v@.len(),
            r@ == v@.subrange(0, i as int),
        decreases v.len() - i,
    {
        r.push(v[i]);
        assert(v@.subrange(0, i + 1) == v@.subrange(0, i as int).push(v@[i as int]));
        i = i + 1;
    }
    assert(v@.subrange(0, v@.len() as int) =~= v@);
    r
}

/// The value of the attribute named `name`, the last one where there are
/// several.
pub fn find_attr<'a>(attrs: &'a Vec<Attribute>, name: &str) -> (r: Option<&'a String>)
    ensures
        match attr_value(attributes_view(attrs@), name@) {
            Some(v) => r matches Some(s) && s@ == v,
            None => r is None,
        },
{
    let ghost av = attributes_view(attrs@);
    let mut i: usize = attrs.len();
    assert(av.subrange(0, i as int) =~= av);
    while i > 0
        invariant
            i <= attrs@.len(),
            av == attributes_view(attrs@),
            attr_value(av, name@) == attr_value(av.subrange(0, i as int), name@),
        decreases i,
    {
        let a = &attrs[i - 1];
        assert(av.subrange(0, i as int).last() == (a.name@, a.value@));
        if str_eq(a.name.as_str(), name) {
            return Some(&a.value);
        }
        assert(av.subrange(0, i as int).drop_last() =~= av.subrange(0, i - 1));
        i = i - 1;
    }
    None
}

/// Whether `name` is one of `known`.
fn is_known(known: &Vec<String>, name: &str) -> (r: bool)
    ensures
        r == known@.map_values(|s: String| s@).contains(name@),
{
    let ghost kv = known@.map_values(|s: String| s@);
    let mut j: usize = 0;
    while j < known.len()
        invariant
            j <= known@.len(),
            kv == known@.map_values(|s: String| s@),
            forall|k: int| 0 <= k < j ==> kv[k] != name@,
        decreases known.len() - j,
    {
        if str_eq(known[j].as_str(), name) {
            assert(kv[j as int] == name@);
            return true;
        }
        j = j + 1;
    }
    false
}

/// Whether every attribute's name is one of `known`.
pub fn attributes_known(attrs: &Vec<Attribute>, known: &Vec<String>) -> (r: bool)
    ensures
        r == all_known(attributes_view(attrs@), known@.map_values(|s: String| s@)),
{
    let ghost av = attributes_view(attrs@);
    let ghost kv = known@.map_values(|s: String| s@);
    let mut i: usize = 0;
    while i < attrs.len()
        invariant
            i <= attrs@.len(),
            av == attributes_view(attrs@),
            kv == known@.map_values(|s: String| s@),
            forall|k: int| 0 <= k < i ==> kv.contains(#[trigger] av[k].0),
        decreases attrs.len() - i,
    {
        if !is_known(known, attrs[i].name.as_str()) {
            assert(!kv.contains(av[i as int].0));
            return false;
        }
        i = i + 1;
    }
    true
}

/// The value of an attribute whose name occurs once is its value.
pub proof fn lemma_attr_value_once(attrs: Seq<(Seq<char>, Seq<char>)>, n: Seq<char>, i: int)
    requires
        0 <= i < attrs.len(),
        attrs[i].0 == n,
        forall|j: int| 0 <= j < attrs.len() && j != i ==> attrs[j].0 != n,
    ensures
        attr_value(attrs, n) == Some(attrs[i].1),
    decreases attrs.len(),
{
    if i != attrs.len() - 1 {
        let d = attrs.drop_last();
        assert(attrs.last().0 != n);
        lemma_attr_value_once(d, n, i);
    }
}

/// An attribute whose name does not occur has no value.
pub proof fn lemma_attr_value_absent(attrs: Seq<(Seq<char>, Seq<char>)>, n: Seq<char>)
    requires
        forall|j: int| 0 <= j < attrs.len() ==> attrs[j].0 != n,
    ensures
        attr_value(attrs, n) is None,
    decreases attrs.len(),
{
    if attrs.len() > 0 {
        assert(attrs.last().0 != n);
        lemma_attr_value_absent(attrs.drop_last(), n);
    }
}

/// Adding an attribute named otherwise leaves the value of `n` as it was.
pub proof fn lemma_attr_value_push_other(
    attrs: Seq<(Seq<char>, Seq<char>)>,
    a: (Seq<char>, Seq<char>),
    n: Seq<char>,
)
    requires
        a.0 != n,
    ensures
        attr_value(attrs.push(a), n) == attr_value(attrs, n),
{
    assert(attrs.push(a).drop_last() =~= attrs);
}

} // verus!
