//! Content attributes and the ordered store that holds an element's
//! attributes, at most one for each qualified name.

use crate::assoc;
use crate::names::same_atom;
use vstd::prelude::*;

verus! {

/// A qualified attribute name in a contract: the namespace and the local name.
/// The empty namespace stands for no namespace.
pub type QualName = (Seq<char>, Seq<char>);

/// A content attribute: namespace, local name and value.
#[derive(Debug, PartialEq, Eq)]
pub struct Attr {
    pub namespace: String,
    pub local_name: String,
    pub value: String,
}

/// What a contract sees of an attribute.
pub struct AttrView {
    pub namespace: Seq<char>,
    pub local_name: Seq<char>,
    pub value: Seq<char>,
}

impl AttrView {
    /// The attribute's qualified name.
    pub open spec fn name(self) -> QualName {
        (self.namespace, self.local_name)
    }

    /// The attribute as an entry of a store: its qualified name and its value.
    pub open spec fn entry(self) -> (QualName, Seq<char>) {
        (self.name(), self.value)
    }
}

impl View for Attr {
    type V = AttrView;

    open spec fn view(&self) -> AttrView {
        AttrView { namespace: self.namespace@, local_name: self.local_name@, value: self.value@ }
    }
}

impl Attr {
    pub fn new(namespace: String, local_name: String, value: String) -> (attr: Attr)
        ensures
            attr@ == (AttrView { namespace: namespace@, local_name: local_name@, value: value@ }),
    {
        Attr { namespace, local_name, value }
    }

    /// A copy of the attribute.
    pub fn duplicate(&self) -> (copy: Attr)
        ensures
            copy@ == self@,
    {
        Attr {
            namespace: self.namespace.clone(),
            local_name: self.local_name.clone(),
            value: self.value.clone(),
        }
    }
}

/// The attributes of one element, in the order in which their names were
/// first set. No two of them have the same qualified name.
pub struct AttributeStore {
    attrs: Vec<Attr>,
}

impl View for AttributeStore {
    type V = Seq<(QualName, Seq<char>)>;

    closed spec fn view(&self) -> Seq<(QualName, Seq<char>)> {
        self.attrs@.map_values(|a: Attr| a@.entry())
    }
}

impl AttributeStore {
    /// No two attributes of a store have the same qualified name.
    #[verifier::type_invariant]
    pub open spec fn unique_names(&self) -> bool {
        assoc::unique_keys(self@)
    }

    /// A store without attributes.
    pub fn new() -> (store: AttributeStore)
        ensures
            store@ == Seq::<(QualName, Seq<char>)>::empty(),
    {
        let store = AttributeStore { attrs: Vec::new() };
        store
    }

    /// The number of attributes.
    pub fn len(&self) -> (n: usize)
        ensures
            n == self@.len(),
    {
        self.attrs.len()
    }

    /// The attribute at position `index`, if the store has that many.
    pub fn item(&self, index: usize) -> (attr: Option<&Attr>)
        ensures
            match attr {
                Some(a) => index < self@.len() && a@.entry() == self@[index as int],
                None => index >= self@.len(),
            },
    {
        if index < self.attrs.len() {
            Some(&self.attrs[index])
        } else {
            None
        }
    }

    /// Moves the attributes out of the store, which is empty until they are
    /// put back.
    fn take_attrs(&mut self) -> (attrs: Vec<Attr>)
        ensures
            attrs == old(self).attrs,
            final(self).attrs@.len() == 0,
    {
        let mut attrs: Vec<Attr> = Vec::new();
        std::mem::swap(&mut self.attrs, &mut attrs);
        attrs
    }

    /// The index of the attribute with the given name, or the number of
    /// attributes if there is none.
    fn find(&self, namespace: &str, local_name: &str) -> (i: usize)
        ensures
            i == assoc::position(self@, (namespace@, local_name@)),
            i <= self.attrs.len(),
    {
        let mut i: usize = 0;
        while i < self.attrs.len()
            invariant
                i <= self.attrs.len(),
                forall|j: int| 0 <= j < i ==> (#[trigger] self@[j]).0 != (namespace@, local_name@),
            decreases self.attrs.len() - i,
        {
            if same_atom(self.attrs[i].namespace.as_str(), namespace) && same_atom(
                self.attrs[i].local_name.as_str(),
                local_name,
            ) {
                proof {
                    assoc::lemma_position_is(self@, (namespace@, local_name@), i as int);
                }
                return i;
            }
            i += 1;
        }
        proof {
            assoc::lemma_position_absent(self@, (namespace@, local_name@));
        }
        i
    }

    /// The value of the attribute with the given name, if the store has one.
    pub fn get(&self, namespace: &str, local_name: &str) -> (value: Option<String>)
        ensures
            match value {
                Some(v) => assoc::get(self@, (namespace@, local_name@)) == Some(v@),
                None => assoc::get(self@, (namespace@, local_name@)) is None,
            },
    {
        let i = self.find(namespace, local_name);
        if i < self.attrs.len() {
            Some(self.attrs[i].value.clone())
        } else {
            None
        }
    }

    /// Stores the attribute: it takes the place of the attribute with the same
    /// qualified name, or is added after all others.
    pub fn set(&mut self, attr: Attr)
        ensures
            final(self)@ == assoc::put(old(self)@, attr@.name(), attr@.value),
    {
        proof {
            use_type_invariant(&*self);
            assoc::lemma_put_unique(self@, attr@.name(), attr@.value);
        }
        let i = self.find(attr.namespace.as_str(), attr.local_name.as_str());
        let ghost entry = attr@.entry();
        let mut attrs = self.take_attrs();
        if i < attrs.len() {
            attrs[i] = attr;
        } else {
            attrs.push(attr);
        }
        assert(attrs@.map_values(|a: Attr| a@.entry()) =~= assoc::put(old(self)@, entry.0, entry.1));
        self.attrs = attrs;
    }

    /// Removes the attribute with the given name, if the store has one.
    pub fn remove(&mut self, namespace: &str, local_name: &str)
        ensures
            final(self)@ == assoc::remove(old(self)@, (namespace@, local_name@)),
    {
        proof {
            use_type_invariant(&*self);
            assoc::lemma_remove_unique(self@, (namespace@, local_name@));
        }
        let i = self.find(namespace, local_name);
        let mut attrs = self.take_attrs();
        if i < attrs.len() {
            attrs.remove(i);
        }
        assert(attrs@.map_values(|a: Attr| a@.entry()) =~= assoc::remove(
            old(self)@,
            (namespace@, local_name@),
        ));
        self.attrs = attrs;
    }
}

} // verus!
