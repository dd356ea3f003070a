use vstd::prelude::*;
use crate::error::EscrowError;
use crate::identity::Identity;

verus! {

/// The most admins that a configuration holds.
pub const MAX_ADMINS: usize = 5;

/// The deployment's configuration: the authority that manages the admin list,
/// and the admins empowered to resolve disputes.
#[derive(Debug)]
pub struct ProtocolConfig {
    pub authority: Identity,
    pub admin_pubkeys: Vec<Identity>,
    pub bump: u8,
}

impl ProtocolConfig {
    /// The admins, in the order in which they were added.
    pub open spec fn admins(&self) -> Seq<Identity> {
        self.admin_pubkeys@
    }

    /// At most five admins, none listed twice.
    pub open spec fn wf(&self) -> bool {
        self.admins().len() <= MAX_ADMINS && self.admins().no_duplicates()
    }

    /// Whether `who` is one of the admins.
    pub fn is_admin(&self, who: &Identity) -> (r: bool)
        ensures
            r == self.admins().contains(*who),
    {
        contains_identity(&self.admin_pubkeys, who)
    }
}

/// The first refusal that `initialize_config` gives for `admins`, if any.
pub open spec fn init_config_error(admins: Seq<Identity>) -> Option<EscrowError> {
    if admins.len() > MAX_ADMINS {
        Some(EscrowError::TooManyAdmins)
    } else if !admins.no_duplicates() {
        Some(EscrowError::AdminAlreadyExists)
    } else {
        None
    }
}

/// The first refusal that `add_admin` gives, if any.
pub open spec fn add_admin_error(
    config: ProtocolConfig,
    caller: Identity,
    new_admin: Identity,
) -> Option<EscrowError> {
    if caller != config.authority {
        Some(EscrowError::UnauthorizedAdmin)
    } else if config.admins().len() >= MAX_ADMINS {
        Some(EscrowError::TooManyAdmins)
    } else if config.admins().contains(new_admin) {
        Some(EscrowError::AdminAlreadyExists)
    } else {
        None
    }
}

/// The admin list with every occurrence of `admin` taken out.
pub open spec fn without_admin(admins: Seq<Identity>, admin: Identity) -> Seq<Identity> {
    admins.filter(other_than(admin))
}

/// The test that keeps every identity but `admin`.
pub open spec fn other_than(admin: Identity) -> spec_fn(Identity) -> bool {
    |x: Identity| x != admin
}

fn contains_identity(list: &Vec<Identity>, who: &Identity) -> (r: bool)
    ensures
        r == list@.contains(*who),
{
    let mut i: usize = 0;
    while i < list.len()
        invariant
            0 <= i <= list@.len(),
            forall|j: int| 0 <= j < i ==> list@[j] != *who,
        decreases list@.len() - i,
    {
        if list[i] == *who {
            return true;
        }
        i = i + 1;
    }
    false
}

fn has_duplicates(list: &Vec<Identity>) -> (r: bool)
    ensures
        r == !list@.no_duplicates(),
{
    let mut i: usize = 0;
    while i < list.len()
        invariant
            0 <= i <= list@.len(),
            forall|a: int, b: int| 0 <= a < b < list@.len() && a < i ==> list@[a] != list@[b],
        decreases list@.len() - i,
    {
        let mut j: usize = i + 1;
        while j < list.len()
            invariant
                i < list@.len(),
                i + 1 <= j <= list@.len(),
                forall|a: int, b: int| 0 <= a < b < list@.len() && a < i ==> list@[a] != list@[b],
                forall|b: int| i < b < j ==> list@[i as int] != list@[b],
            decreases list@.len() - j,
        {
            if list[i] == list[j] {
                return true;
            }
            j = j + 1;
        }
        i = i + 1;
    }
    false
}

/// A new configuration whose authority is `authority`. Fails with
/// `TooManyAdmins` when more than five admins are given, and with
/// `AdminAlreadyExists` when one is listed twice.
pub fn initialize_config(
    authority: Identity,
    admin_pubkeys: Vec<Identity>,
    bump: u8,
) -> (r: Result<ProtocolConfig, EscrowError>)
    ensures
        r is Ok <==> init_config_error(admin_pubkeys@) is None,
        r is Err ==> Some(r->Err_0) == init_config_error(admin_pubkeys@),
        r is Ok ==> r->Ok_0.authority == authority && r->Ok_0.admins() == admin_pubkeys@
            && r->Ok_0.bump == bump && r->Ok_0.wf(),
{
    if admin_pubkeys.len() > MAX_ADMINS {
        return Err(EscrowError::TooManyAdmins);
    }
    if has_duplicates(&admin_pubkeys) {
        return Err(EscrowError::AdminAlreadyExists);
    }
    Ok(ProtocolConfig { authority, admin_pubkeys, bump })
}

/// Adds `new_admin`. Only the authority may call it; the list must hold fewer
/// than five admins and not hold `new_admin` already.
pub fn add_admin(
    config: &mut ProtocolConfig,
    caller: Identity,
    new_admin: Identity,
) -> (r: Result<(), EscrowError>)
    ensures
        r is Ok <==> add_admin_error(*old(config), caller, new_admin) is None,
        r is Err ==> Some(r->Err_0) == add_admin_error(*old(config), caller, new_admin)
            && *final(config) == *old(config),
        r is Ok ==> final(config).admins() == old(config).admins().push(new_admin)
            && final(config).authority == old(config).authority
            && final(config).bump == old(config).bump,
        old(config).wf() ==> final(config).wf(),
{
    if !(caller == config.authority) {
        return Err(EscrowError::UnauthorizedAdmin);
    }
    if config.admin_pubkeys.len() >= MAX_ADMINS {
        return Err(EscrowError::TooManyAdmins);
    }
    if contains_identity(&config.admin_pubkeys, &new_admin) {
        return Err(EscrowError::AdminAlreadyExists);
    }
    config.admin_pubkeys.push(new_admin);
    proof {
        let s = old(config).admins();
        let t = final(config).admins();
        assert forall|a: int, b: int| 0 <= a < t.len() && 0 <= b < t.len() && a != b
            && s.no_duplicates() implies t[a] != t[b] by {
            if b == s.len() {
                assert(s.contains(t[a]) ==> t[a] != new_admin);
                assert(s[a] == t[a]);
            } else if a == s.len() {
                assert(s[b] == t[b]);
            }
        }
    }
    Ok(())
}

/// Removes `admin`, which the list need not hold: removing an absent admin
/// changes nothing and succeeds. Only the authority may call it.
pub fn remove_admin(
    config: &mut ProtocolConfig,
    caller: Identity,
    admin: Identity,
) -> (r: Result<(), EscrowError>)
    ensures
        r is Ok <==> caller == old(config).authority,
        r is Err ==> r->Err_0 == EscrowError::UnauthorizedAdmin && *final(config) == *old(config),
        r is Ok ==> final(config).admins() == without_admin(old(config).admins(), admin)
            && final(config).authority == old(config).authority
            && final(config).bump == old(config).bump,
        r is Ok && !old(config).admins().contains(admin) ==> final(config).admins()
            == old(config).admins(),
        old(config).wf() ==> final(config).wf(),
{
    if !(caller == config.authority) {
        return Err(EscrowError::UnauthorizedAdmin);
    }
    let ghost start = config.admin_pubkeys@;
    let mut kept: Vec<Identity> = Vec::new();
    let mut i: usize = 0;
    while i < config.admin_pubkeys.len()
        invariant
            config.admin_pubkeys@ == start,
            0 <= i <= start.len(),
            kept@ == start.subrange(0, i as int).filter(other_than(admin)),
            kept@.len() <= i,
            forall|j: int| 0 <= j < kept@.len() ==> exists|k: int| 0 <= k < i && start[k] == #[trigger] kept@[j],
            start.no_duplicates() ==> kept@.no_duplicates(),
            !start.contains(admin) ==> kept@ == start.subrange(0, i as int),
        decreases start.len() - i,
    {
        let x = config.admin_pubkeys[i];
        proof {
            assert(start.subrange(0, i + 1) =~= start.subrange(0, i as int).push(x));
            start.subrange(0, i as int).lemma_filter_push(x, other_than(admin));
        }
        if !(x == admin) {
            proof {
                assert(other_than(admin)(x));
                if start.no_duplicates() {
                    assert forall|j: int| 0 <= j < kept@.len() implies kept@[j] != x by {
                        let k = choose|k: int| 0 <= k < i && start[k] == kept@[j];
                        assert(start[k] == kept@[j]);
                    }
                }
            }
            let ghost before = kept@;
            kept.push(x);
            proof {
                assert forall|j: int| 0 <= j < kept@.len() implies exists|k: int| 0 <= k < i + 1 && start[k] == #[trigger] kept@[j] by {
                    if j == kept@.len() - 1 {
                        assert(start[i as int] == kept@[j]);
                    } else {
                        let k = choose|k: int| 0 <= k < i && start[k] == before[j];
                        assert(start[k] == kept@[j]);
                    }
                }
            }
        } else {
            proof {
                assert(!other_than(admin)(x));
                assert(start.contains(admin)) by {
                    assert(start[i as int] == admin);
                }
            }
        }
        i = i + 1;
    }
    proof {
        assert(start.subrange(0, start.len() as int) =~= start);
    }
    config.admin_pubkeys = kept;
    Ok(())
}

} // verus!
