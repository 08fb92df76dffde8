//! The authorizer: who may connect, and to which ports.

use crate::config::{holds, ConfigManager, ServerConfig};
use crate::identity::NodeIdentity;
use vstd::prelude::*;

verus! {

/// The keys that remain when every key with the bytes `id` is taken out.
pub open spec fn without(keys: Seq<NodeIdentity>, id: Seq<u8>) -> Seq<NodeIdentity>
    decreases keys.len(),
{
    if keys.len() == 0 {
        keys
    } else if keys.last()@ == id {
        without(keys.drop_last(), id)
    } else {
        without(keys.drop_last(), id).push(keys.last())
    }
}

/// The keys after `key` is authorized: unchanged where it already is one of
/// them, else with `key` at the end.
pub open spec fn with_key(keys: Seq<NodeIdentity>, key: NodeIdentity) -> Seq<NodeIdentity> {
    if holds(keys, key@) {
        keys
    } else {
        keys.push(key)
    }
}

/// Membership after one more key is looked at.
pub proof fn holds_step(keys: Seq<NodeIdentity>, i: int, id: Seq<u8>)
    requires
        0 <= i < keys.len(),
    ensures
        holds(keys.take(i + 1), id) == (holds(keys.take(i), id) || keys[i]@ == id),
{
    let shorter = keys.take(i);
    let longer = keys.take(i + 1);
    if holds(shorter, id) {
        let w = choose|w: int| 0 <= w < shorter.len() && (#[trigger] shorter[w])@ == id;
        assert(longer[w]@ == id);
    }
    if keys[i]@ == id {
        assert(longer[i]@ == id);
    }
    if holds(longer, id) {
        let w = choose|w: int| 0 <= w < longer.len() && (#[trigger] longer[w])@ == id;
        if w < i {
            assert(shorter[w]@ == id);
        }
    }
}

/// A key is among those that remain exactly when it was there before and is
/// not the one taken out.
pub proof fn without_holds(keys: Seq<NodeIdentity>, id: Seq<u8>, other: Seq<u8>)
    ensures
        holds(without(keys, id), other) == (holds(keys, other) && other != id),
        without(keys, id).len() <= keys.len(),
        (without(keys, id).len() < keys.len()) == holds(keys, id),
        !holds(keys, id) ==> without(keys, id) == keys,
    decreases keys.len(),
{
    if keys.len() == 0 {
    } else {
        let front = keys.drop_last();
        let last = keys.last();
        without_holds(front, id, other);
        assert(front =~= keys.take(keys.len() - 1));
        assert(keys.take(keys.len() as int) =~= keys);
        holds_step(keys, keys.len() - 1, other);
        holds_step(keys, keys.len() - 1, id);
        let rest = without(front, id);
        if last@ != id {
            let all = rest.push(last);
            assert(all.take(all.len() - 1) =~= rest);
            assert(all.take(all.len() as int) =~= all);
            holds_step(all, all.len() - 1, other);
            if !holds(keys, id) {
                assert(all =~= keys);
            }
        }
    }
}

/// Whether one of `keys` is `id`.
pub fn contains_key(keys: &Vec<NodeIdentity>, id: &NodeIdentity) -> (r: bool)
    ensures
        r == holds(keys@, id@),
{
    let mut i: usize = 0;
    while i < keys.len()
        invariant
            i <= keys@.len(),
            forall|k: int| 0 <= k < i ==> (#[trigger] keys@[k])@ != id@,
        decreases keys@.len() - i,
    {
        if keys[i].same(id) {
            return true;
        }
        i += 1;
    }
    false
}

/// Decides who may connect and which ports may be asked for, over the
/// server's configuration.
#[derive(Debug)]
pub struct AuthorizationManager {
    config_manager: ConfigManager,
}

impl AuthorizationManager {
    /// The manager of the files that hold the configuration.
    pub closed spec fn manager(&self) -> ConfigManager {
        self.config_manager
    }

    pub fn new(config_manager: ConfigManager) -> (a: AuthorizationManager)
        ensures
            a.manager() == config_manager,
    {
        AuthorizationManager { config_manager }
    }

    pub fn config_manager(&self) -> (m: &ConfigManager)
        ensures
            *m == self.manager(),
    {
        &self.config_manager
    }

    /// Whether `node_id` is one of the authorized keys.
    pub fn is_authorized(&self, config: &ServerConfig, node_id: &NodeIdentity) -> (r: bool)
        ensures
            r == config.authorizes(node_id@),
    {
        contains_key(&config.authorized_keys, node_id)
    }

    /// Authorizes `key`. Returns whether the configuration changed, that is,
    /// whether the key was not yet authorized.
    pub fn authorize(&self, config: &mut ServerConfig, key: NodeIdentity) -> (changed: bool)
        ensures
            changed == !old(config).authorizes(key@),
            final(config).authorized_keys@ == with_key(old(config).authorized_keys@, key),
            final(config).settings == old(config).settings,
            final(config).authorizes(key@),
    {
        let changed = !contains_key(&config.authorized_keys, &key);
        if changed {
            config.authorized_keys.push(key);
            proof {
                let keys = config.authorized_keys@;
                assert(keys[keys.len() - 1]@ == key@);
            }
        }
        changed
    }

    /// Takes `key` out of the authorized keys. Returns whether it was there.
    pub fn revoke(&self, config: &mut ServerConfig, key: &NodeIdentity) -> (removed: bool)
        ensures
            removed == old(config).authorizes(key@),
            final(config).authorized_keys@ == without(old(config).authorized_keys@, key@),
            final(config).settings == old(config).settings,
            !final(config).authorizes(key@),
    {
        let ghost before = config.authorized_keys@;
        let mut kept: Vec<NodeIdentity> = Vec::new();
        let mut removed = false;
        let mut i: usize = 0;
        assert(before.take(0) =~= Seq::<NodeIdentity>::empty());
        while i < config.authorized_keys.len()
            invariant
                i <= before.len(),
                config.authorized_keys@ == before,
                config.settings == old(config).settings,
                kept@ == without(before.take(i as int), key@),
                removed == holds(before.take(i as int), key@),
            decreases before.len() - i,
        {
            let k = config.authorized_keys[i];
            proof {
                holds_step(before, i as int, key@);
                assert(before.take(i as int + 1).drop_last() =~= before.take(i as int));
                assert(before.take(i as int + 1).last() == before[i as int]);
            }
            if k.same(key) {
                removed = true;
            } else {
                kept.push(k);
            }
            i += 1;
        }
        proof {
            assert(before.take(before.len() as int) =~= before);
            without_holds(before, key@, key@);
        }
        config.authorized_keys = kept;
        removed
    }

    /// The authorized keys, in the order in which they were added.
    pub fn list_authorized(&self, config: &ServerConfig) -> (keys: Vec<NodeIdentity>)
        ensures
            keys@ == config.authorized_keys@,
    {
        let mut keys: Vec<NodeIdentity> = Vec::new();
        let mut i: usize = 0;
        while i < config.authorized_keys.len()
            invariant
                i <= config.authorized_keys@.len(),
                keys@ == config.authorized_keys@.take(i as int),
            decreases config.authorized_keys@.len() - i,
        {
            keys.push(config.authorized_keys[i]);
            assert(keys@ =~= config.authorized_keys@.take(i as int + 1));
            i += 1;
        }
        assert(config.authorized_keys@.take(config.authorized_keys@.len() as int)
            =~= config.authorized_keys@);
        keys
    }

    /// Whether `port` lies in the allowed range, both ends included.
    pub fn is_port_allowed(&self, config: &ServerConfig, port: u16) -> (r: bool)
        ensures
            r == config.allows_port(port),
            r == (config.settings.allowed_ports.0 <= port && port
                <= config.settings.allowed_ports.1),
    {
        port >= config.settings.allowed_ports.0 && port <= config.settings.allowed_ports.1
    }
}

/// Authorizing a key a second time changes nothing.
pub proof fn authorize_is_idempotent(keys: Seq<NodeIdentity>, key: NodeIdentity)
    ensures
        holds(with_key(keys, key), key@),
        with_key(with_key(keys, key), key) == with_key(keys, key),
{
    let once = with_key(keys, key);
    if !holds(keys, key@) {
        assert(once[once.len() - 1]@ == key@);
    }
}

/// Authorizing a key leaves every other key as it was: authorized or not.
pub proof fn authorize_keeps_others(keys: Seq<NodeIdentity>, key: NodeIdentity, other: Seq<u8>)
    requires
        other != key@,
    ensures
        holds(with_key(keys, key), other) == holds(keys, other),
{
    let once = with_key(keys, key);
    if !holds(keys, key@) {
        assert(once.take(once.len() - 1) =~= keys);
        assert(once.take(once.len() as int) =~= once);
        holds_step(once, once.len() - 1, other);
    }
}

/// Once a key is revoked it is gone: a second revocation finds nothing and
/// changes nothing.
pub proof fn revoke_once(keys: Seq<NodeIdentity>, key: Seq<u8>)
    ensures
        !holds(without(keys, key), key),
        without(without(keys, key), key) == without(keys, key),
{
    without_holds(keys, key, key);
    without_holds(without(keys, key), key, key);
}

/// Both ends of the allowed range are allowed, and nothing outside it.
pub proof fn port_range_is_inclusive(config: ServerConfig, port: u16)
    requires
        config.settings.allowed_ports.0 <= config.settings.allowed_ports.1,
    ensures
        config.allows_port(config.settings.allowed_ports.0),
        config.allows_port(config.settings.allowed_ports.1),
        port < config.settings.allowed_ports.0 ==> !config.allows_port(port),
        port > config.settings.allowed_ports.1 ==> !config.allows_port(port),
{
}

} // verus!
