//! The client's book of known hosts.

use crate::config::{ClientConfig, ConfigManager, Host};
use crate::config::{book_is_sound, identities_distinct, names_distinct, repeats_name};
use crate::identity::{hex_of, NodeIdentity};
use vstd::prelude::*;

verus! {

/// Why a change to the host book is refused.
#[derive(Clone, Debug, PartialEq, Eq)]
pub enum HostError {
    /// A host of this name is in the book already.
    NameExists { name: String },
    /// The identity is in the book already, under this name.
    IdentityExists { name: String },
    /// No host has this name or identity.
    NotFound { identifier: String },
    /// The name proposed for a host is empty.
    EmptyName,
}

/// What is wrong with a name proposed for a new host, if anything.
#[derive(Clone, Copy, Debug, PartialEq, Eq, Structural)]
pub enum NameCheck {
    Valid,
    Empty,
    Taken,
}

/// Whether a host of the book has this name.
pub open spec fn named(hosts: Seq<Host>, name: Seq<char>) -> bool {
    exists|i: int| 0 <= i < hosts.len() && (#[trigger] hosts[i]).name@ == name
}

/// Whether a host of the book has this identity.
pub open spec fn identified(hosts: Seq<Host>, id: Seq<u8>) -> bool {
    exists|i: int| 0 <= i < hosts.len() && (#[trigger] hosts[i]).id@ == id
}

/// Whether `identifier` is the host's name or the full text of its identity.
pub open spec fn answers_to(host: Host, identifier: Seq<char>) -> bool {
    host.name@ == identifier || hex_of(host.id@) == identifier
}

/// Whether a host of the book answers to `identifier`.
pub open spec fn listed(hosts: Seq<Host>, identifier: Seq<char>) -> bool {
    exists|i: int| 0 <= i < hosts.len() && answers_to(#[trigger] hosts[i], identifier)
}

/// `i` is the place of the first host with this name.
pub open spec fn first_named(hosts: Seq<Host>, name: Seq<char>, i: int) -> bool {
    &&& 0 <= i < hosts.len()
    &&& hosts[i].name@ == name
    &&& forall|k: int| 0 <= k < i ==> (#[trigger] hosts[k]).name@ != name
}

/// `i` is the place of the first host with this identity.
pub open spec fn first_identified(hosts: Seq<Host>, id: Seq<u8>, i: int) -> bool {
    &&& 0 <= i < hosts.len()
    &&& hosts[i].id@ == id
    &&& forall|k: int| 0 <= k < i ==> (#[trigger] hosts[k]).id@ != id
}

/// `i` is the place of the first host that answers to `identifier`.
pub open spec fn first_listed(hosts: Seq<Host>, identifier: Seq<char>, i: int) -> bool {
    &&& 0 <= i < hosts.len()
    &&& answers_to(hosts[i], identifier)
    &&& forall|k: int| 0 <= k < i ==> !answers_to(#[trigger] hosts[k], identifier)
}

/// Whether two texts are the same.
pub fn same_text(a: &str, b: &str) -> (r: bool)
    ensures
        r == (a@ == b@),
{
    let x = a.to_owned();
    let y = b.to_owned();
    x == y
}

/// The place of the first host with this name.
pub fn position_by_name(hosts: &Vec<Host>, name: &str) -> (r: Option<usize>)
    ensures
        match r {
            Some(i) => first_named(hosts@, name@, i as int),
            None => !named(hosts@, name@),
        },
{
    let mut i: usize = 0;
    while i < hosts.len()
        invariant
            i <= hosts@.len(),
            forall|k: int| 0 <= k < i ==> (#[trigger] hosts@[k]).name@ != name@,
        decreases hosts@.len() - i,
    {
        if same_text(hosts[i].name.as_str(), name) {
            return Some(i);
        }
        i += 1;
    }
    None
}

/// The place of the first host with this identity.
pub fn position_by_identity(hosts: &Vec<Host>, id: &NodeIdentity) -> (r: Option<usize>)
    ensures
        match r {
            Some(i) => first_identified(hosts@, id@, i as int),
            None => !identified(hosts@, id@),
        },
{
    let mut i: usize = 0;
    while i < hosts.len()
        invariant
            i <= hosts@.len(),
            forall|k: int| 0 <= k < i ==> (#[trigger] hosts@[k]).id@ != id@,
        decreases hosts@.len() - i,
    {
        if hosts[i].id.same(id) {
            return Some(i);
        }
        i += 1;
    }
    None
}

/// The place of the first host that answers to `identifier`.
pub fn position_of(hosts: &Vec<Host>, identifier: &str) -> (r: Option<usize>)
    ensures
        match r {
            Some(i) => first_listed(hosts@, identifier@, i as int),
            None => !listed(hosts@, identifier@),
        },
{
    let mut i: usize = 0;
    while i < hosts.len()
        invariant
            i <= hosts@.len(),
            forall|k: int| 0 <= k < i ==> !answers_to(#[trigger] hosts@[k], identifier@),
        decreases hosts@.len() - i,
    {
        if same_text(hosts[i].name.as_str(), identifier) {
            return Some(i);
        }
        let text = hosts[i].id.to_string();
        if same_text(text.as_str(), identifier) {
            return Some(i);
        }
        i += 1;
    }
    None
}

/// Judges a name proposed for a new host: it must not be empty and no host
/// may have it.
pub fn check_host_name(hosts: &Vec<Host>, input: &str) -> (r: NameCheck)
    ensures
        r == if input@.len() == 0 {
            NameCheck::Empty
        } else if named(hosts@, input@) {
            NameCheck::Taken
        } else {
            NameCheck::Valid
        },
{
    if input.unicode_len() == 0 {
        NameCheck::Empty
    } else if position_by_name(hosts, input).is_some() {
        NameCheck::Taken
    } else {
        NameCheck::Valid
    }
}

impl NameCheck {
    pub open spec fn text(self) -> Seq<char> {
        match self {
            NameCheck::Valid => ""@,
            NameCheck::Empty => "Host name cannot be empty."@,
            NameCheck::Taken => "Host name already exists. Please choose a different name."@,
        }
    }

    /// What the user is told about the name; nothing where it is valid.
    pub fn message(&self) -> (s: String)
        ensures
            s@ == self.text(),
    {
        match self {
            NameCheck::Valid => "".to_owned(),
            NameCheck::Empty => "Host name cannot be empty.".to_owned(),
            NameCheck::Taken => "Host name already exists. Please choose a different name.".to_owned(),
        }
    }
}

/// Adds, removes and finds hosts in the client's book.
#[derive(Debug)]
pub struct HostManager {
    config_manager: ConfigManager,
}

impl HostManager {
    /// The manager of the files that hold the book.
    pub closed spec fn manager(&self) -> ConfigManager {
        self.config_manager
    }

    pub fn new(config_manager: ConfigManager) -> (h: HostManager)
        ensures
            h.manager() == config_manager,
    {
        HostManager { config_manager }
    }

    pub fn config_manager(&self) -> (m: &ConfigManager)
        ensures
            *m == self.manager(),
    {
        &self.config_manager
    }

    /// Adds a host first seen at `now`. A name or an identity that the book
    /// already holds is refused, the name first, and the book stays as it is.
    pub fn add_host(
        &self,
        config: &mut ClientConfig,
        name: String,
        id: NodeIdentity,
        description: Option<String>,
        now: u64,
    ) -> (r: Result<(), HostError>)
        ensures
            match r {
                Ok(_) => {
                    &&& !named(old(config).hosts@, name@)
                    &&& !identified(old(config).hosts@, id@)
                    &&& final(config).hosts@ == old(config).hosts@.push(
                        Host { name, id, description, added_at: now, last_connected: None },
                    )
                },
                Err(HostError::NameExists { name: taken }) => {
                    &&& named(old(config).hosts@, name@)
                    &&& taken == name
                    &&& final(config).hosts@ == old(config).hosts@
                },
                Err(HostError::IdentityExists { name: owner }) => {
                    &&& !named(old(config).hosts@, name@)
                    &&& final(config).hosts@ == old(config).hosts@
                    &&& exists|i: int|
                        first_identified(old(config).hosts@, id@, i) && owner
                            == old(config).hosts@[i].name
                },
                Err(HostError::NotFound { .. }) => false,
                Err(HostError::EmptyName) => false,
            },
            final(config).settings == old(config).settings,
            book_is_sound(old(config).hosts@) ==> book_is_sound(final(config).hosts@),
    {
        if position_by_name(&config.hosts, name.as_str()).is_some() {
            return Err(HostError::NameExists { name });
        }
        match position_by_identity(&config.hosts, &id) {
            Some(i) => {
                let owner = config.hosts[i].name.clone();
                return Err(HostError::IdentityExists { name: owner });
            },
            None => {},
        }
        let mut host = Host::new(name, id, now);
        host.description = description;
        proof {
            if book_is_sound(config.hosts@) {
                add_keeps_book_sound(config.hosts@, host);
            }
        }
        config.hosts.push(host);
        Ok(())
    }

    /// Removes the first host that answers to `identifier` and returns it.
    pub fn remove_host(&self, config: &mut ClientConfig, identifier: &str) -> (r: Result<
        Host,
        HostError,
    >)
        ensures
            match r {
                Ok(host) => exists|i: int|
                    first_listed(old(config).hosts@, identifier@, i) && host
                        == old(config).hosts@[i] && final(config).hosts@
                        == old(config).hosts@.remove(i),
                Err(HostError::NotFound { identifier: missing }) => {
                    &&& !listed(old(config).hosts@, identifier@)
                    &&& missing@ == identifier@
                    &&& final(config).hosts@ == old(config).hosts@
                },
                Err(_) => false,
            },
            final(config).settings == old(config).settings,
            book_is_sound(old(config).hosts@) ==> book_is_sound(final(config).hosts@),
    {
        match position_of(&config.hosts, identifier) {
            Some(i) => {
                proof {
                    if book_is_sound(config.hosts@) {
                        remove_keeps_book_sound(config.hosts@, i as int);
                    }
                }
                let host = config.hosts.remove(i);
                Ok(host)
            },
            None => Err(HostError::NotFound { identifier: identifier.to_owned() }),
        }
    }

    /// Notes a connection made at `now` on the first host with this identity.
    /// Returns whether the book holds such a host.
    pub fn mark_host_connected(&self, config: &mut ClientConfig, node_id: &NodeIdentity, now: u64) -> (changed:
        bool)
        ensures
            changed == identified(old(config).hosts@, node_id@),
            changed ==> exists|i: int|
                first_identified(old(config).hosts@, node_id@, i) && final(config).hosts@
                    == old(config).hosts@.update(
                    i,
                    Host { last_connected: Some(now), ..old(config).hosts@[i] },
                ),
            !changed ==> final(config).hosts@ == old(config).hosts@,
            final(config).settings == old(config).settings,
            book_is_sound(old(config).hosts@) ==> book_is_sound(final(config).hosts@),
    {
        match position_by_identity(&config.hosts, node_id) {
            Some(i) => {
                proof {
                    if book_is_sound(config.hosts@) {
                        mark_keeps_book_sound(config.hosts@, i as int, now);
                    }
                }
                let mut host = config.hosts.remove(i);
                host.mark_connected(now);
                config.hosts.insert(i, host);
                assert(config.hosts@ =~= old(config).hosts@.update(
                    i as int,
                    Host { last_connected: Some(now), ..old(config).hosts@[i as int] },
                ));
                true
            },
            None => false,
        }
    }

    /// The first host that answers to `identifier`.
    pub fn find_host<'a>(&self, config: &'a ClientConfig, identifier: &str) -> (r: Option<&'a Host>)
        ensures
            match r {
                Some(host) => exists|i: int|
                    first_listed(config.hosts@, identifier@, i) && *host == config.hosts@[i],
                None => !listed(config.hosts@, identifier@),
            },
    {
        match position_of(&config.hosts, identifier) {
            Some(i) => Some(&config.hosts[i]),
            None => None,
        }
    }

    /// The hosts of the book, in the order in which they were added.
    pub fn list_hosts<'a>(&self, config: &'a ClientConfig) -> (hosts: &'a Vec<Host>)
        ensures
            hosts@ == config.hosts@,
    {
        &config.hosts
    }
}

/// Adding a host to a book without repeated names or identities leaves it
/// so: `add_host` accepts a host only where neither its name nor its identity
/// is in the book.
pub proof fn add_keeps_book_sound(hosts: Seq<Host>, host: Host)
    requires
        names_distinct(hosts),
        identities_distinct(hosts),
        !named(hosts, host.name@),
        !identified(hosts, host.id@),
    ensures
        names_distinct(hosts.push(host)),
        identities_distinct(hosts.push(host)),
{
    let after = hosts.push(host);
    assert forall|j: int| 0 <= j < after.len() implies !#[trigger] repeats_name(after, j) by {
        if repeats_name(after, j) {
            let i = choose|i: int| 0 <= i < j && (#[trigger] after[i]).name@ == after[j].name@;
            if j < hosts.len() {
                assert(hosts[i].name@ == hosts[j].name@);
                assert(repeats_name(hosts, j));
            } else {
                assert(hosts[i].name@ == host.name@);
            }
        }
    }
    assert forall|i: int, j: int| 0 <= i < j < after.len() implies (#[trigger] after[i]).id@ != (
    #[trigger] after[j]).id@ by {
        if j < hosts.len() {
            assert(hosts[i].id@ != hosts[j].id@);
        } else {
            if hosts[i].id@ == host.id@ {
                assert(identified(hosts, host.id@));
            }
        }
    }
}

/// A name or an identity that the book holds is found, so that `add_host`
/// refuses a second host with it.
pub proof fn duplicates_are_refused(hosts: Seq<Host>, i: int)
    requires
        0 <= i < hosts.len(),
    ensures
        named(hosts, hosts[i].name@),
        identified(hosts, hosts[i].id@),
        listed(hosts, hosts[i].name@),
        listed(hosts, hex_of(hosts[i].id@)),
{
    assert(answers_to(hosts[i], hosts[i].name@));
    assert(answers_to(hosts[i], hex_of(hosts[i].id@)));
}

/// Removing a host from a book without repeated names or identities leaves
/// it so.
pub proof fn remove_keeps_book_sound(hosts: Seq<Host>, i: int)
    requires
        names_distinct(hosts),
        identities_distinct(hosts),
        0 <= i < hosts.len(),
    ensures
        names_distinct(hosts.remove(i)),
        identities_distinct(hosts.remove(i)),
        !named(hosts.remove(i), hosts[i].name@),
        !identified(hosts.remove(i), hosts[i].id@),
{
    let after = hosts.remove(i);
    let place = |k: int| if k < i { k } else { k + 1 };
    assert forall|k: int| 0 <= k < after.len() implies after[k] == hosts[place(k)] by {}
    assert forall|j: int| 0 <= j < after.len() implies !#[trigger] repeats_name(after, j) by {
        if repeats_name(after, j) {
            let k = choose|k: int| 0 <= k < j && (#[trigger] after[k]).name@ == after[j].name@;
            assert(after[k] == hosts[place(k)]);
            assert(after[j] == hosts[place(j)]);
            assert(hosts[place(k)].name@ == hosts[place(j)].name@);
            assert(repeats_name(hosts, place(j)));
        }
    }
    assert forall|a: int, b: int| 0 <= a < b < after.len() implies (#[trigger] after[a]).id@ != (
    #[trigger] after[b]).id@ by {
        assert(after[a] == hosts[place(a)]);
        assert(after[b] == hosts[place(b)]);
        assert(hosts[place(a)].id@ != hosts[place(b)].id@);
    }
    if named(after, hosts[i].name@) {
        let k = choose|k: int| 0 <= k < after.len() && (#[trigger] after[k]).name@ == hosts[i].name@;
        assert(after[k] == hosts[place(k)]);
        if place(k) < i {
            assert(hosts[place(k)].name@ == hosts[i].name@);
            assert(repeats_name(hosts, i));
        } else {
            assert(hosts[i].name@ == hosts[place(k)].name@);
            assert(repeats_name(hosts, place(k)));
        }
    }
    if identified(after, hosts[i].id@) {
        let k = choose|k: int| 0 <= k < after.len() && (#[trigger] after[k]).id@ == hosts[i].id@;
        assert(after[k] == hosts[place(k)]);
        if place(k) < i {
            assert(hosts[place(k)].id@ != hosts[i].id@);
        } else {
            assert(hosts[i].id@ != hosts[place(k)].id@);
        }
    }
}

/// Noting a connection on a host changes neither its name nor its identity,
/// so a book without repeated names or identities stays so.
pub proof fn mark_keeps_book_sound(hosts: Seq<Host>, i: int, now: u64)
    requires
        names_distinct(hosts),
        identities_distinct(hosts),
        0 <= i < hosts.len(),
    ensures
        names_distinct(hosts.update(i, Host { last_connected: Some(now), ..hosts[i] })),
        identities_distinct(hosts.update(i, Host { last_connected: Some(now), ..hosts[i] })),
{
    let after = hosts.update(i, Host { last_connected: Some(now), ..hosts[i] });
    assert forall|k: int| 0 <= k < after.len() implies (#[trigger] after[k]).name == hosts[k].name
        && after[k].id == hosts[k].id by {}
    assert forall|j: int| 0 <= j < after.len() implies !#[trigger] repeats_name(after, j) by {
        if repeats_name(after, j) {
            let k = choose|k: int| 0 <= k < j && (#[trigger] after[k]).name@ == after[j].name@;
            assert(after[j].name == hosts[j].name);
            assert(hosts[k].name@ == hosts[j].name@);
            assert(repeats_name(hosts, j));
        }
    }
    assert forall|a: int, b: int| 0 <= a < b < after.len() implies (#[trigger] after[a]).id@ != (
    #[trigger] after[b]).id@ by {
        assert(hosts[a].id@ != hosts[b].id@);
    }
}

} // verus!
