//! A model of the registry and of the host's list of descriptors, and what
//! registration and its withdrawal do to them.
use vstd::prelude::*;
use crate::descriptor::{apo_descriptor, friendly_name_units, DescriptorView};
use crate::guid::{
    guid_text, lemma_guid_text_injective, lemma_guid_text_shape, Guid, IID_IRUSTAPO,
};
use crate::registration::{
    clsid_key_path, inproc_key_path, register_actions, threading_model_units,
    unregister_actions, ActionView, REG_SZ,
};
use crate::wide::le_bytes;

verus! {

/// A value under a registry key: its type and its bytes.
pub struct RegistryValue {
    pub kind: u32,
    pub data: Seq<u8>,
}

/// The part of the system that registration writes to, as far as its steps
/// can tell: the keys under the local-machine root, each with its values by
/// name; the key that is open; and the descriptors that the host holds.
pub struct RegistryModel {
    pub keys: Map<Seq<char>, Map<Seq<char>, RegistryValue>>,
    pub open_key: Option<Seq<char>>,
    pub published: Map<Guid, DescriptorView>,
}

impl RegistryModel {
    /// What a step that succeeds does.
    pub open spec fn apply(self, action: ActionView) -> RegistryModel {
        match action {
            ActionView::RegisterApo { descriptor } => RegistryModel {
                published: self.published.insert(descriptor.clsid, descriptor),
                ..self
            },
            ActionView::CreateKey { path, access } => RegistryModel {
                keys: if self.keys.contains_key(path) {
                    self.keys
                } else {
                    self.keys.insert(path, Map::empty())
                },
                open_key: Some(path),
                ..self
            },
            ActionView::SetValue { name, kind, data } => match self.open_key {
                Some(path) => if self.keys.contains_key(path) {
                    RegistryModel {
                        keys: self.keys.insert(
                            path,
                            self.keys[path].insert(name, RegistryValue { kind, data }),
                        ),
                        ..self
                    }
                } else {
                    self
                },
                None => self,
            },
            ActionView::CloseKey => RegistryModel { open_key: None, ..self },
            ActionView::DeleteKey { path, access } => RegistryModel {
                keys: self.keys.remove(path),
                ..self
            },
            ActionView::UnregisterApo { clsid } => RegistryModel {
                published: self.published.remove(clsid),
                ..self
            },
        }
    }

    /// What the first `count` steps do, each succeeding.
    pub open spec fn apply_first(self, actions: Seq<ActionView>, count: nat) -> RegistryModel
        decreases count,
    {
        if count == 0 {
            self
        } else {
            self.apply_first(actions, (count - 1) as nat).apply(actions[count - 1])
        }
    }

    /// What all the steps do, each succeeding.
    pub open spec fn apply_all(self, actions: Seq<ActionView>) -> RegistryModel {
        self.apply_first(actions, actions.len())
    }
}

/// Whether a key is `root` or lies below it.
pub open spec fn is_under(path: Seq<char>, root: Seq<char>) -> bool {
    path == root || (path.len() > root.len() && path.take(root.len() as int) == root
        && path[root.len() as int] == '\\')
}

/// The model after a registration that succeeds: the descriptor is published,
/// the class key holds the friendly name, and its child holds the module's
/// path and the threading model. Values of other names and other keys stay.
pub open spec fn registered(before: RegistryModel, dll_path: Seq<u16>) -> RegistryModel {
    let class_key = clsid_key_path(Guid(IID_IRUSTAPO));
    let server_key = inproc_key_path(Guid(IID_IRUSTAPO));
    let class_values = if before.keys.contains_key(class_key) {
        before.keys[class_key]
    } else {
        Map::empty()
    };
    let server_values = if before.keys.contains_key(server_key) {
        before.keys[server_key]
    } else {
        Map::empty()
    };
    RegistryModel {
        keys: before.keys.insert(
            class_key,
            class_values.insert(
                Seq::empty(),
                RegistryValue { kind: REG_SZ, data: le_bytes(friendly_name_units()) },
            ),
        ).insert(
            server_key,
            server_values.insert(
                Seq::empty(),
                RegistryValue { kind: REG_SZ, data: le_bytes(dll_path) },
            ).insert(
                "ThreadingModel"@,
                RegistryValue { kind: REG_SZ, data: le_bytes(threading_model_units()) },
            ),
        ),
        open_key: None,
        published: before.published.insert(Guid(IID_IRUSTAPO), apo_descriptor()),
    }
}

/// Two classes with the same key are one class, and so are two classes with
/// the same in-process key: a key leads to one class only.
pub proof fn lemma_key_names_one_class(first: Guid, second: Guid)
    requires
        clsid_key_path(first) == clsid_key_path(second) || inproc_key_path(first)
            == inproc_key_path(second),
    ensures
        first == second,
{
    reveal_strlit("SOFTWARE\\Classes\\CLSID\\{");
    reveal_strlit("}");
    reveal_strlit("\\InprocServer32");
    lemma_guid_text_shape(first.0);
    lemma_guid_text_shape(second.0);
    let a = clsid_key_path(first);
    let b = clsid_key_path(second);
    assert(a.len() == 61 && b.len() == 61);
    assert(a =~= inproc_key_path(first).take(61));
    assert(b =~= inproc_key_path(second).take(61));
    assert(a == b);
    assert(guid_text(first.0) =~= a.subrange(24, 60));
    assert(guid_text(second.0) =~= b.subrange(24, 60));
    lemma_guid_text_injective(first.0, second.0);
}

/// The class key and its child are two keys, the child lies under the class
/// key, and the name of the threading model is not the empty name.
proof fn lemma_plugin_keys()
    ensures
        clsid_key_path(Guid(IID_IRUSTAPO)) != inproc_key_path(Guid(IID_IRUSTAPO)),
        is_under(inproc_key_path(Guid(IID_IRUSTAPO)), clsid_key_path(Guid(IID_IRUSTAPO))),
        is_under(clsid_key_path(Guid(IID_IRUSTAPO)), clsid_key_path(Guid(IID_IRUSTAPO))),
        "ThreadingModel"@ != Seq::<char>::empty(),
{
    reveal_strlit("ThreadingModel");
    reveal_strlit("\\InprocServer32");
    assert("ThreadingModel"@.len() == 14);
    let class_key = clsid_key_path(Guid(IID_IRUSTAPO));
    let server_key = inproc_key_path(Guid(IID_IRUSTAPO));
    assert(server_key.len() == class_key.len() + 15);
    assert(server_key.take(class_key.len() as int) =~= class_key);
    assert(server_key[class_key.len() as int] == "\\InprocServer32"@[0]);
}

/// What a registration that succeeds does to the model.
pub proof fn lemma_register_effect(before: RegistryModel, dll_path: Seq<u16>)
    ensures
        before.apply_all(register_actions(dll_path)) == registered(before, dll_path),
{
    lemma_plugin_keys();
    let actions = register_actions(dll_path);
    reveal_with_fuel(RegistryModel::apply_first, 9);
    let after = before.apply_all(actions);
    let goal = registered(before, dll_path);
    assert(after.keys =~~= goal.keys);
    assert(after.published =~= goal.published);
}

/// Registering and then unregistering leaves no key at or under the plugin's
/// class key and no descriptor with the host, where the class key had no
/// other child before. Keys elsewhere are as they were.
pub proof fn lemma_register_then_unregister_leaves_no_keys(
    before: RegistryModel,
    dll_path: Seq<u16>,
)
    requires
        forall|path: Seq<char>|
            before.keys.contains_key(path) && is_under(path, clsid_key_path(Guid(IID_IRUSTAPO)))
                ==> path == clsid_key_path(Guid(IID_IRUSTAPO)) || path == inproc_key_path(
                Guid(IID_IRUSTAPO),
            ),
    ensures
        ({
            let after = before.apply_all(register_actions(dll_path)).apply_all(
                unregister_actions(),
            );
            &&& forall|path: Seq<char>|
                is_under(path, clsid_key_path(Guid(IID_IRUSTAPO))) ==> !after.keys.contains_key(
                    path,
                )
            &&& forall|path: Seq<char>|
                !is_under(path, clsid_key_path(Guid(IID_IRUSTAPO))) ==> after.keys.contains_key(
                    path,
                ) == before.keys.contains_key(path)
            &&& forall|path: Seq<char>|
                !is_under(path, clsid_key_path(Guid(IID_IRUSTAPO))) && before.keys.contains_key(
                    path,
                ) ==> after.keys[path] == before.keys[path]
            &&& !after.published.contains_key(Guid(IID_IRUSTAPO))
            &&& after.open_key is None
        }),
{
    lemma_plugin_keys();
    lemma_register_effect(before, dll_path);
    reveal_with_fuel(RegistryModel::apply_first, 4);
}

/// Registering twice in a row leaves what the second registration alone would
/// have left: each key and each value exists once, with the later content.
pub proof fn lemma_register_again_overwrites(
    before: RegistryModel,
    first_path: Seq<u16>,
    second_path: Seq<u16>,
)
    ensures
        before.apply_all(register_actions(first_path)).apply_all(register_actions(second_path))
            == before.apply_all(register_actions(second_path)),
{
    lemma_plugin_keys();
    lemma_register_effect(before, first_path);
    lemma_register_effect(before, second_path);
    let once = registered(before, first_path);
    lemma_register_effect(once, second_path);
    let twice = registered(once, second_path);
    let goal = registered(before, second_path);
    assert(twice.keys =~~= goal.keys);
    assert(twice.published =~= goal.published);
}

} // verus!
