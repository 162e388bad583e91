//! The process-wide plugin registration table: `(namespace, name)` pairs
//! mapped to constructor handles, populated once during the sequential
//! startup phase and append-only for the life of the process.

use vstd::prelude::*;

use crate::errors::ExtensionError;

verus! {

/// One registered plugin type. Identity is the `(namespace, name)` pair,
/// which must be unique process-wide.
pub struct PluginDescriptor {
    /// The namespace the plugin is registered under.
    pub namespace: String,
    /// The plugin's name within its namespace.
    pub name: String,
    /// The handle the host maps to the plugin's fallible-async factory; the
    /// factory itself lives on the host's side of the extension boundary.
    pub constructor: u64,
}

/// Whether some entry carries the given `(namespace, name)` key.
pub open spec fn contains_key(entries: Seq<PluginDescriptor>, namespace: Seq<char>, name: Seq<char>) -> bool {
    exists|i: int|
        0 <= i < entries.len() && (#[trigger] entries[i]).namespace@ == namespace
            && entries[i].name@ == name
}

/// The constructor handle the first entry with the given key carries, if any
/// entry carries it. Under `PluginRegistry::wf` the first match is the only
/// match.
pub open spec fn constructor_for(entries: Seq<PluginDescriptor>, namespace: Seq<char>, name: Seq<char>) -> Option<u64>
    decreases entries.len(),
{
    if entries.len() == 0 {
        None
    } else if entries[0].namespace@ == namespace && entries[0].name@ == name {
        Some(entries[0].constructor)
    } else {
        constructor_for(entries.drop_first(), namespace, name)
    }
}

/// How the table steps on a registration: a key already present is rejected
/// with `DuplicateRegistration` and the table is unchanged; a new key is
/// appended.
pub open spec fn spec_register(entries: Seq<PluginDescriptor>, descriptor: PluginDescriptor) -> (Seq<PluginDescriptor>, Result<(), ExtensionError>) {
    if contains_key(entries, descriptor.namespace@, descriptor.name@) {
        (entries, Err(ExtensionError::DuplicateRegistration(descriptor.namespace, descriptor.name)))
    } else {
        (entries.push(descriptor), Ok(()))
    }
}

/// The registration table. Writes happen only on the single-threaded
/// startup path, before the host's request-processing concurrency begins;
/// afterwards the table is read-only. There is no unregister operation.
pub struct PluginRegistry {
    /// The registered descriptors, in registration order.
    pub entries: Vec<PluginDescriptor>,
}

impl PluginRegistry {
    /// The table's invariant: no two entries share a `(namespace, name)`
    /// key. `register` establishes and preserves it.
    pub open spec fn wf(self) -> bool {
        forall|i: int, j: int|
            0 <= i < j < self.entries@.len() ==> !((#[trigger] self.entries@[i]).namespace@
                == (#[trigger] self.entries@[j]).namespace@ && self.entries@[i].name@
                == self.entries@[j].name@)
    }

    /// An empty table.
    pub fn new() -> (registry: PluginRegistry)
        ensures
            registry.entries@ == Seq::<PluginDescriptor>::empty(),
            registry.wf(),
    {
        PluginRegistry { entries: Vec::new() }
    }

    /// Register a plugin type. Fails with `DuplicateRegistration` if the
    /// `(namespace, name)` key is already present, leaving the table
    /// unchanged; otherwise appends the descriptor and succeeds.
    pub fn register(&mut self, descriptor: PluginDescriptor) -> (r: Result<(), ExtensionError>)
        requires
            old(self).wf(),
        ensures
            final(self).wf(),
            (final(self).entries@, r) == spec_register(old(self).entries@, descriptor),
            r is Ok <==> !contains_key(old(self).entries@, descriptor.namespace@, descriptor.name@),
            r is Ok ==> final(self).entries@ == old(self).entries@.push(descriptor),
            r is Err ==> final(self).entries@ == old(self).entries@
                && r == Err::<(), ExtensionError>(ExtensionError::DuplicateRegistration(descriptor.namespace, descriptor.name)),
    {
        let mut i: usize = 0;
        while i < self.entries.len()
            invariant
                *self == *old(self),
                old(self).wf(),
                0 <= i <= self.entries@.len(),
                forall|k: int|
                    0 <= k < i ==> !((#[trigger] self.entries@[k]).namespace@
                        == descriptor.namespace@ && self.entries@[k].name@ == descriptor.name@),
            decreases self.entries@.len() - i,
        {
            if self.entries[i].namespace == descriptor.namespace
                && self.entries[i].name == descriptor.name {
                return Err(ExtensionError::DuplicateRegistration(descriptor.namespace, descriptor.name));
            }
            i = i + 1;
        }
        self.entries.push(descriptor);
        Ok(())
    }

    /// Look up the constructor handle registered for a `(namespace, name)`
    /// key; `None` exactly when no such key was registered. This is how the
    /// host discovers registered plugins.
    pub fn lookup(&self, namespace: &String, name: &String) -> (r: Option<u64>)
        ensures
            r == constructor_for(self.entries@, namespace@, name@),
            r is Some <==> contains_key(self.entries@, namespace@, name@),
    {
        proof {
            lemma_constructor_for_contains(self.entries@, namespace@, name@);
            assert(self.entries@.skip(0) =~= self.entries@);
        }
        let mut i: usize = 0;
        while i < self.entries.len()
            invariant
                0 <= i <= self.entries@.len(),
                constructor_for(self.entries@, namespace@, name@) == constructor_for(
                    self.entries@.skip(i as int),
                    namespace@,
                    name@,
                ),
            decreases self.entries@.len() - i,
        {
            if self.entries[i].namespace == *namespace && self.entries[i].name == *name {
                proof {
                    assert(self.entries@.skip(i as int)[0] == self.entries@[i as int]);
                }
                return Some(self.entries[i].constructor);
            }
            proof {
                assert(self.entries@.skip(i as int)[0] == self.entries@[i as int]);
                assert(self.entries@.skip(i as int).drop_first() =~= self.entries@.skip(i as int + 1));
            }
            i = i + 1;
        }
        proof {
            assert(self.entries@.skip(self.entries@.len() as int).len() == 0);
        }
        None
    }
}

/// `constructor_for` finds a handle exactly when some entry carries the key.
pub proof fn lemma_constructor_for_contains(entries: Seq<PluginDescriptor>, namespace: Seq<char>, name: Seq<char>)
    ensures
        constructor_for(entries, namespace, name) is Some <==> contains_key(entries, namespace, name),
    decreases entries.len(),
{
    if entries.len() > 0 {
        lemma_constructor_for_contains(entries.drop_first(), namespace, name);
        if entries[0].namespace@ == namespace && entries[0].name@ == name {
        } else {
            if contains_key(entries, namespace, name) {
                let i = choose|i: int|
                    0 <= i < entries.len() && (#[trigger] entries[i]).namespace@ == namespace
                        && entries[i].name@ == name;
                assert(entries.drop_first()[i - 1] == entries[i]);
                assert(contains_key(entries.drop_first(), namespace, name));
            }
            if contains_key(entries.drop_first(), namespace, name) {
                let i = choose|i: int|
                    0 <= i < entries.drop_first().len()
                        && (#[trigger] entries.drop_first()[i]).namespace@ == namespace
                        && entries.drop_first()[i].name@ == name;
                assert(entries[i + 1] == entries.drop_first()[i]);
                assert(contains_key(entries, namespace, name));
            }
        }
    }
}

/// Law: registering the same `(namespace, name)` pair twice fails with
/// `DuplicateRegistration` on the second call, and the first registration —
/// indeed the whole table — remains intact.
pub proof fn lemma_duplicate_registration_rejected(entries: Seq<PluginDescriptor>, first: PluginDescriptor, second: PluginDescriptor)
    requires
        !contains_key(entries, first.namespace@, first.name@),
        second.namespace@ == first.namespace@,
        second.name@ == first.name@,
    ensures
        ({
            let (after_first, r1) = spec_register(entries, first);
            let (after_second, r2) = spec_register(after_first, second);
            &&& r1 is Ok
            &&& after_first == entries.push(first)
            &&& r2 == Err::<(), ExtensionError>(ExtensionError::DuplicateRegistration(second.namespace, second.name))
            &&& after_second == after_first
        }),
{
    let after_first = entries.push(first);
    assert(after_first[entries.len() as int] == first);
    assert(contains_key(after_first, second.namespace@, second.name@));
}

} // verus!
