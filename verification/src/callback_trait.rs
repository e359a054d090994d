//! Callback traits: interfaces that the foreign side implements and Rust calls.

use vstd::prelude::*;
use crate::model::{Deprecation, Type};

verus! {

/// What a method returns: nothing, a value, or a value or an error.
#[derive(Debug)]
pub enum ReturnType {
    Void,
    Value(Type),
    Fallible { ok: Type, err: Type },
}

impl ReturnType {
    /// Whether the method can fail.
    pub fn throws(&self) -> (r: bool)
        ensures
            r == (*self is Fallible),
    {
        match self {
            ReturnType::Fallible { .. } => true,
            _ => false,
        }
    }

    /// Whether a successful call hands back a value.
    pub fn has_return_value(&self) -> (r: bool)
        ensures
            r == match *self {
                ReturnType::Void => false,
                ReturnType::Value(t) => !(t is Void),
                ReturnType::Fallible { ok, .. } => !(ok is Void),
            },
    {
        match self {
            ReturnType::Void => false,
            ReturnType::Value(t) => !t.is_void(),
            ReturnType::Fallible { ok, .. } => !ok.is_void(),
        }
    }
}

/// A callback trait.
#[derive(Debug)]
pub struct CallbackTrait {
    pub name: String,
    pub methods: Vec<TraitMethod>,
    pub doc: Option<String>,
    pub deprecated: Option<Deprecation>,
}

/// A method of a callback trait.
#[derive(Debug)]
pub struct TraitMethod {
    pub name: String,
    pub inputs: Vec<TraitMethodParam>,
    pub returns: ReturnType,
    pub is_async: bool,
    pub doc: Option<String>,
}

/// A parameter of a callback trait's method.
#[derive(Debug)]
pub struct TraitMethodParam {
    pub name: String,
    pub param_type: Type,
}

/// The methods of `ms` that are not async, in order.
pub open spec fn sync_of(ms: Seq<TraitMethod>) -> Seq<TraitMethod>
    decreases ms.len(),
{
    if ms.len() == 0 {
        Seq::empty()
    } else if ms.last().is_async {
        sync_of(ms.drop_last())
    } else {
        sync_of(ms.drop_last()).push(ms.last())
    }
}

/// The methods of `ms` that are async, in order.
pub open spec fn async_of(ms: Seq<TraitMethod>) -> Seq<TraitMethod>
    decreases ms.len(),
{
    if ms.len() == 0 {
        Seq::empty()
    } else if ms.last().is_async {
        async_of(ms.drop_last()).push(ms.last())
    } else {
        async_of(ms.drop_last())
    }
}

/// The methods split into sync and async ones: every method lands in exactly one
/// of the two lists, which keep the methods' order and hold only their own kind.
pub proof fn lemma_sync_async_partition(ms: Seq<TraitMethod>)
    ensures
        sync_of(ms).len() + async_of(ms).len() == ms.len(),
        forall|i: int| 0 <= i < sync_of(ms).len() ==> !(#[trigger] sync_of(ms)[i]).is_async,
        forall|i: int| 0 <= i < async_of(ms).len() ==> (#[trigger] async_of(ms)[i]).is_async,
        forall|m: TraitMethod| ms.contains(m) ==> (sync_of(ms).contains(m) || async_of(ms).contains(m)),
    decreases ms.len(),
{
    if ms.len() > 0 {
        let t = ms.drop_last();
        lemma_sync_async_partition(t);
        assert forall|i: int| 0 <= i < sync_of(ms).len() implies !(#[trigger] sync_of(ms)[i]).is_async by {
            if i < sync_of(t).len() {
                assert(sync_of(ms)[i] == sync_of(t)[i]);
            }
        }
        assert forall|i: int| 0 <= i < async_of(ms).len() implies (#[trigger] async_of(ms)[i]).is_async by {
            if i < async_of(t).len() {
                assert(async_of(ms)[i] == async_of(t)[i]);
            }
        }
        assert forall|m: TraitMethod| ms.contains(m) implies (sync_of(ms).contains(m) || async_of(ms).contains(m)) by {
            let k = choose|k: int| 0 <= k < ms.len() && ms[k] == m;
            if k < t.len() {
                assert(t[k] == m);
                assert(t.contains(m));
                if sync_of(t).contains(m) {
                    let j = choose|j: int| 0 <= j < sync_of(t).len() && sync_of(t)[j] == m;
                    assert(sync_of(ms)[j] == m);
                } else {
                    let j = choose|j: int| 0 <= j < async_of(t).len() && async_of(t)[j] == m;
                    assert(async_of(ms)[j] == m);
                }
            } else {
                if m.is_async {
                    assert(async_of(ms)[async_of(ms).len() - 1] == m);
                } else {
                    assert(sync_of(ms)[sync_of(ms).len() - 1] == m);
                }
            }
        }
    }
}

impl CallbackTrait {
    pub fn new(name: &str) -> (r: Self)
        ensures
            r.name@ == name@,
            r.methods@.len() == 0,
            r.doc is None,
            r.deprecated is None,
    {
        CallbackTrait { name: name.to_owned(), methods: Vec::new(), doc: None, deprecated: None }
    }

    pub fn with_method(self, method: TraitMethod) -> (r: Self)
        ensures
            r.methods@ == self.methods@.push(method),
            r.name == self.name,
            r.doc == self.doc,
            r.deprecated == self.deprecated,
    {
        let mut t = self;
        t.methods.push(method);
        t
    }

    pub fn with_doc(self, doc: &str) -> (r: Self)
        ensures
            r.doc matches Some(d) && d@ == doc@,
            r.name == self.name,
            r.methods == self.methods,
            r.deprecated == self.deprecated,
    {
        let mut t = self;
        t.doc = Some(doc.to_owned());
        t
    }

    /// The methods that are not async, in order.
    pub fn sync_methods(&self) -> (r: Vec<&TraitMethod>)
        ensures
            r@.len() == sync_of(self.methods@).len(),
            forall|i: int| 0 <= i < r@.len() ==> *(#[trigger] r@[i]) == sync_of(self.methods@)[i],
    {
        let mut r: Vec<&TraitMethod> = Vec::new();
        let mut i: usize = 0;
        while i < self.methods.len()
            invariant
                i <= self.methods@.len(),
                r@.len() == sync_of(self.methods@.take(i as int)).len(),
                forall|k: int|
                    0 <= k < r@.len() ==> *(#[trigger] r@[k]) == sync_of(self.methods@.take(i as int))[k],
            decreases self.methods.len() - i,
        {
            assert(self.methods@.take(i + 1).drop_last() =~= self.methods@.take(i as int));
            if !self.methods[i].is_async {
                r.push(&self.methods[i]);
            }
            i = i + 1;
        }
        assert(self.methods@.take(i as int) =~= self.methods@);
        r
    }

    /// The async methods, in order.
    pub fn async_methods(&self) -> (r: Vec<&TraitMethod>)
        ensures
            r@.len() == async_of(self.methods@).len(),
            forall|i: int| 0 <= i < r@.len() ==> *(#[trigger] r@[i]) == async_of(self.methods@)[i],
    {
        let mut r: Vec<&TraitMethod> = Vec::new();
        let mut i: usize = 0;
        while i < self.methods.len()
            invariant
                i <= self.methods@.len(),
                r@.len() == async_of(self.methods@.take(i as int)).len(),
                forall|k: int|
                    0 <= k < r@.len() ==> *(#[trigger] r@[k]) == async_of(self.methods@.take(i as int))[k],
            decreases self.methods.len() - i,
        {
            assert(self.methods@.take(i + 1).drop_last() =~= self.methods@.take(i as int));
            if self.methods[i].is_async {
                r.push(&self.methods[i]);
            }
            i = i + 1;
        }
        assert(self.methods@.take(i as int) =~= self.methods@);
        r
    }
}

impl TraitMethod {
    pub fn new(name: &str) -> (r: Self)
        ensures
            r.name@ == name@,
            r.inputs@.len() == 0,
            r.returns is Void,
            !r.is_async,
            r.doc is None,
    {
        TraitMethod {
            name: name.to_owned(),
            inputs: Vec::new(),
            returns: ReturnType::Void,
            is_async: false,
            doc: None,
        }
    }

    pub fn with_param(self, param: TraitMethodParam) -> (r: Self)
        ensures
            r.inputs@ == self.inputs@.push(param),
            r.name == self.name,
            r.returns == self.returns,
            r.is_async == self.is_async,
            r.doc == self.doc,
    {
        let mut m = self;
        m.inputs.push(param);
        m
    }

    pub fn with_return(self, return_type: ReturnType) -> (r: Self)
        ensures
            r.returns == return_type,
            r.name == self.name,
            r.inputs == self.inputs,
            r.is_async == self.is_async,
            r.doc == self.doc,
    {
        let mut m = self;
        m.returns = return_type;
        m
    }

    pub fn with_doc(self, doc: &str) -> (r: Self)
        ensures
            r.doc matches Some(d) && d@ == doc@,
            r.name == self.name,
            r.inputs == self.inputs,
            r.returns == self.returns,
            r.is_async == self.is_async,
    {
        let mut m = self;
        m.doc = Some(doc.to_owned());
        m
    }

    pub fn make_async(self) -> (r: Self)
        ensures
            r.is_async,
            r.name == self.name,
            r.inputs == self.inputs,
            r.returns == self.returns,
            r.doc == self.doc,
    {
        let mut m = self;
        m.is_async = true;
        m
    }

    /// Whether the method can fail.
    pub fn throws(&self) -> (r: bool)
        ensures
            r == (self.returns is Fallible),
    {
        self.returns.throws()
    }

    /// Whether a successful call hands back a value.
    pub fn has_return(&self) -> (r: bool)
        ensures
            r == match self.returns {
                ReturnType::Void => false,
                ReturnType::Value(t) => !(t is Void),
                ReturnType::Fallible { ok, .. } => !(ok is Void),
            },
    {
        self.returns.has_return_value()
    }
}

impl TraitMethodParam {
    pub fn new(name: &str, param_type: Type) -> (r: Self)
        ensures
            r.name@ == name@,
            r.param_type == param_type,
    {
        TraitMethodParam { name: name.to_owned(), param_type }
    }
}

} // verus!
