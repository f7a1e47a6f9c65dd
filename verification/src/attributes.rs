//! Attributes: the ordered list of text keys and text values that an entity
//! carries.

use vstd::prelude::*;
use vstd::string::*;

verus! {

/// A key with its value.
#[derive(Clone, Debug)]
pub struct Attribute {
    pub key: String,
    pub value: String,
}

/// What an [`Attribute`] holds, as text.
pub struct AttributeView {
    pub key: Seq<char>,
    pub value: Seq<char>,
}

impl View for Attribute {
    type V = AttributeView;

    open spec fn view(&self) -> AttributeView {
        AttributeView { key: self.key@, value: self.value@ }
    }
}

/// The attributes of one entity, in the order in which they were attached.
#[derive(Clone, Debug)]
pub struct Attributes {
    pub attribute_list: Vec<Attribute>,
}

impl View for Attributes {
    type V = Seq<AttributeView>;

    open spec fn view(&self) -> Seq<AttributeView> {
        Seq::new(self.attribute_list@.len(), |i: int| self.attribute_list@[i]@)
    }
}

/// Whether `i` is the place of the first attribute of `attrs` with the key
/// `key`.
pub open spec fn is_first_with_key(attrs: Seq<AttributeView>, key: Seq<char>, i: int) -> bool {
    &&& 0 <= i < attrs.len()
    &&& attrs[i].key == key
    &&& forall|j: int| 0 <= j < i ==> (#[trigger] attrs[j]).key != key
}

/// The value of the first attribute of `attrs` with the key `key`, if there
/// is one.
pub open spec fn lookup(attrs: Seq<AttributeView>, key: Seq<char>) -> Option<Seq<char>> {
    if exists|i: int| is_first_with_key(attrs, key, i) {
        Some(attrs[choose|i: int| is_first_with_key(attrs, key, i)].value)
    } else {
        None
    }
}

/// The first attribute with a key is the one that a lookup finds.
pub proof fn lemma_lookup_found(attrs: Seq<AttributeView>, key: Seq<char>, i: int)
    requires
        is_first_with_key(attrs, key, i),
    ensures
        lookup(attrs, key) == Some(attrs[i].value),
{
    let k = choose|k: int| is_first_with_key(attrs, key, k);
    assert(is_first_with_key(attrs, key, k));
    if k < i {
        assert(attrs[k].key != key);
    }
    if i < k {
        assert(attrs[i].key != key);
    }
}

/// A lookup finds nothing exactly when no attribute has the key.
pub proof fn lemma_lookup_absent(attrs: Seq<AttributeView>, key: Seq<char>)
    requires
        forall|j: int| 0 <= j < attrs.len() ==> (#[trigger] attrs[j]).key != key,
    ensures
        lookup(attrs, key) is None,
{
    if exists|i: int| is_first_with_key(attrs, key, i) {
        let k = choose|k: int| is_first_with_key(attrs, key, k);
        assert(attrs[k].key == key);
    }
}

impl Attributes {
    /// No attributes.
    pub fn new() -> (attrs: Attributes)
        ensures
            attrs@ == Seq::<AttributeView>::empty(),
    {
        let attrs = Attributes { attribute_list: Vec::new() };
        assert(attrs@ =~= Seq::<AttributeView>::empty());
        attrs
    }

    /// The number of attributes.
    pub fn len(&self) -> (n: usize)
        ensures
            n == self@.len(),
    {
        self.attribute_list.len()
    }

    /// Attaches one more attribute, behind those that are there.
    pub fn push(&mut self, key: &str, value: String)
        ensures
            final(self)@ == old(self)@.push(AttributeView { key: key@, value: value@ }),
    {
        self.attribute_list.push(Attribute { key: String::from_str(key), value });
        assert(self@ =~= old(self)@.push(AttributeView { key: key@, value: value@ }));
    }

    /// The value of the first attribute with the key `key`.
    pub fn get(&self, key: &str) -> (r: Option<&String>)
        ensures
            match r {
                Some(value) => lookup(self@, key@) == Some(value@),
                None => lookup(self@, key@) is None,
            },
    {
        let wanted = String::from_str(key);
        let n = self.attribute_list.len();
        let mut i: usize = 0;
        while i < n
            invariant
                n == self.attribute_list@.len(),
                i <= n,
                wanted@ == key@,
                forall|j: int| 0 <= j < i ==> (#[trigger] self@[j]).key != key@,
            decreases n - i,
        {
            if self.attribute_list[i].key == wanted {
                proof {
                    lemma_lookup_found(self@, key@, i as int);
                }
                return Some(&self.attribute_list[i].value);
            }
            i += 1;
        }
        proof {
            lemma_lookup_absent(self@, key@);
        }
        None
    }
}

} // verus!
