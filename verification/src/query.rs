//! The read side: the lookups the aggregator performs before synthesis, and
//! the query surface over persisted invoices.

use vstd::prelude::*;
use crate::errors::ProcessingError;
use crate::foreign_types::{User, UserAddress, UserAddressView, UserView, VendorAddress};
use crate::invoice::Invoice;
use crate::order::Order;
use crate::store::Store;

verus! {

/// The first address of `addrs` with the given id, if any.
pub open spec fn spec_first_address(
    addrs: Seq<UserAddressView>,
    address_id: Seq<char>,
) -> Option<UserAddressView>
    decreases addrs.len(),
{
    if addrs.len() == 0 {
        None
    } else if addrs[0].id == address_id {
        Some(addrs[0])
    } else {
        spec_first_address(addrs.drop_first(), address_id)
    }
}

/// The first user owning an address of the given id, paired with the first
/// such address of that user, if any.
pub open spec fn spec_find_owner(users: Seq<UserView>, address_id: Seq<char>) -> Option<
    (UserView, UserAddressView),
>
    decreases users.len(),
{
    if users.len() == 0 {
        None
    } else {
        match spec_first_address(users[0].addresses, address_id) {
            Some(a) => Some((users[0], a)),
            None => spec_find_owner(users.drop_first(), address_id),
        }
    }
}

/// The index of the first address of `addrs` with the given id, if any.
fn first_address_index(addrs: &Vec<UserAddress>, address_id: &String) -> (r: Option<usize>)
    ensures
        match r {
            Some(k) => 0 <= k < addrs.deep_view().len() && spec_first_address(
                addrs.deep_view(),
                address_id@,
            ) == Some(addrs.deep_view()[k as int]),
            None => spec_first_address(addrs.deep_view(), address_id@) is None,
        },
{
    let ghost dv = addrs.deep_view();
    proof {
        assert(dv.skip(0) =~= dv);
    }
    let mut k: usize = 0;
    while k < addrs.len()
        invariant
            k <= addrs.len(),
            dv == addrs.deep_view(),
            spec_first_address(dv, address_id@) == spec_first_address(
                dv.skip(k as int),
                address_id@,
            ),
        decreases addrs.len() - k,
    {
        proof {
            assert(dv.skip(k as int)[0] == dv[k as int]);
        }
        if addrs[k]._id == *address_id {
            return Some(k);
        }
        proof {
            assert(dv.skip(k as int).drop_first() =~= dv.skip(k as int + 1));
        }
        k += 1;
    }
    proof {
        assert(dv.skip(addrs@.len() as int) =~= Seq::<UserAddressView>::empty());
    }
    None
}

/// Queries the user owning the address of the given id, projected down to
/// the owner's id and that single address: the aggregator's first lookup.
/// Fails with `NotFound` where no user owns such an address.
pub fn query_user_address_user(users: &Vec<User>, address_id: &String) -> (r: Result<
    User,
    ProcessingError,
>)
    ensures
        match spec_find_owner(users.deep_view(), address_id@) {
            Some(owner) => r matches Ok(u) && u@ == (UserView {
                id: owner.0.id,
                first_name: Seq::<char>::empty(),
                last_name: Seq::<char>::empty(),
                addresses: seq![owner.1],
            }),
            None => r matches Err(e) && e == ProcessingError::NotFound,
        },
{
    let ghost dv = users.deep_view();
    proof {
        assert(dv.skip(0) =~= dv);
    }
    let mut i: usize = 0;
    while i < users.len()
        invariant
            i <= users.len(),
            dv == users.deep_view(),
            spec_find_owner(dv, address_id@) == spec_find_owner(dv.skip(i as int), address_id@),
        decreases users.len() - i,
    {
        proof {
            assert(dv.skip(i as int)[0] == dv[i as int]);
        }
        match first_address_index(&users[i].addresses, address_id) {
            Some(k) => {
                let owner = &users[i];
                let address = owner.addresses[k].clone();
                let mut addresses: Vec<UserAddress> = Vec::new();
                let ghost addr_snap = address;
                let ghost pre = addresses;
                addresses.push(address);
                let projected = User {
                    _id: owner._id.clone(),
                    first_name: String::new(),
                    last_name: String::new(),
                    addresses,
                };
                proof {
                    crate::text::lemma_deep_view_push(pre, projected.addresses, addr_snap);
                    assert(projected.addresses.deep_view() =~= seq![addr_snap@]);
                    assert(spec_find_owner(dv.skip(i as int), address_id@) == Some(
                        (dv[i as int], addr_snap@),
                    ));
                }
                return Ok(projected);
            },
            None => {
                proof {
                    assert(dv.skip(i as int).drop_first() =~= dv.skip(i as int + 1));
                }
            },
        }
        i += 1;
    }
    proof {
        assert(dv.skip(users@.len() as int) =~= Seq::<UserView>::empty());
    }
    Err(ProcessingError::NotFound)
}

/// Projects the result of the owner query, a user holding only the queried
/// address, to that address. Fails with `NotFound` on an empty projection.
pub fn project_user_to_user_address(user: &User) -> (r: Result<UserAddress, ProcessingError>)
    ensures
        match r {
            Ok(a) => user@.addresses.len() > 0 && a@ == user@.addresses[0],
            Err(e) => user@.addresses.len() == 0 && e == ProcessingError::NotFound,
        },
{
    if user.addresses.len() > 0 {
        Ok(user.addresses[0].clone())
    } else {
        Err(ProcessingError::NotFound)
    }
}

/// Queries the current vendor address: the aggregator's second lookup. Fails
/// with `NotFound` where none has ever been created.
pub fn query_vendor_address(store: &Store) -> (r: Result<VendorAddress, ProcessingError>)
    ensures
        match store@.vendor_address {
            Some(v) => r matches Ok(a) && a@ == v,
            None => r matches Err(e) && e == ProcessingError::NotFound,
        },
{
    match &store.vendor_address {
        Some(v) => Ok(v.clone()),
        None => Err(ProcessingError::NotFound),
    }
}

/// An entity a collection is keyed by.
pub trait Identified {
    /// The entity's id, at the specification level.
    spec fn sid(&self) -> Seq<char>;

    /// The entity's id.
    fn id(&self) -> (r: &String)
        ensures
            r@ == self.sid(),
    ;
}

impl Identified for User {
    open spec fn sid(&self) -> Seq<char> {
        self._id@
    }

    fn id(&self) -> (r: &String) {
        &self._id
    }
}

impl Identified for Invoice {
    open spec fn sid(&self) -> Seq<char> {
        self._id@
    }

    fn id(&self) -> (r: &String) {
        &self._id
    }
}

/// Queries the first object of the given id from a collection: the
/// aggregator's third lookup fetches the buyer this way. Fails with
/// `NotFound` where no object has the id.
pub fn query_object<'a, T: Identified>(collection: &'a Vec<T>, id: &String) -> (r: Result<
    &'a T,
    ProcessingError,
>)
    ensures
        match r {
            Ok(obj) => exists|k: int|
                0 <= k < collection@.len() && #[trigger] collection@[k] == *obj && obj.sid() == id@
                    && (forall|j: int| 0 <= j < k ==> collection@[j].sid() != id@),
            Err(e) => e == ProcessingError::NotFound && forall|j: int|
                0 <= j < collection@.len() ==> collection@[j].sid() != id@,
        },
{
    let mut i: usize = 0;
    while i < collection.len()
        invariant
            i <= collection.len(),
            forall|j: int| 0 <= j < i ==> collection@[j].sid() != id@,
        decreases collection.len() - i,
    {
        let candidate = &collection[i];
        if *candidate.id() == *id {
            proof {
                assert(collection@[i as int] == *candidate && candidate.sid() == id@);
            }
            return Ok(candidate);
        }
        i += 1;
    }
    Err(ProcessingError::NotFound)
}

/// Queries the first invoice persisted for the given order id. Fails with
/// `NotFound` where the order has no invoice.
pub fn query_invoice_by_order_id<'a>(invoices: &'a Vec<Invoice>, order_id: &String) -> (r: Result<
    &'a Invoice,
    ProcessingError,
>)
    ensures
        match r {
            Ok(inv) => exists|k: int|
                0 <= k < invoices@.len() && #[trigger] invoices@[k] == *inv && inv.order_id@
                    == order_id@ && (forall|j: int|
                    0 <= j < k ==> invoices@[j].order_id@ != order_id@),
            Err(e) => e == ProcessingError::NotFound && forall|j: int|
                0 <= j < invoices@.len() ==> invoices@[j].order_id@ != order_id@,
        },
{
    let mut i: usize = 0;
    while i < invoices.len()
        invariant
            i <= invoices.len(),
            forall|j: int| 0 <= j < i ==> invoices@[j].order_id@ != order_id@,
        decreases invoices.len() - i,
    {
        let candidate = &invoices[i];
        if candidate.order_id == *order_id {
            proof {
                assert(invoices@[i as int] == *candidate);
            }
            return Ok(candidate);
        }
        i += 1;
    }
    Err(ProcessingError::NotFound)
}

/// The read-only query surface over persisted documents.
pub struct Query;

impl Query {
    /// Resolves an order id to the order projection: the id paired with the
    /// first invoice persisted for it.
    pub fn order_entity_resolver(&self, store: &Store, id: &String) -> (r: Result<
        Order,
        ProcessingError,
    >)
        ensures
            match r {
                Ok(o) => o._id@ == id@ && o.invoice.order_id@ == id@ && exists|k: int|
                    0 <= k < store.invoices@.len() && #[trigger] store.invoices@[k]@ == o.invoice@
                        && (forall|j: int| 0 <= j < k ==> store.invoices@[j].order_id@ != id@),
                Err(e) => e == ProcessingError::NotFound && forall|j: int|
                    0 <= j < store.invoices@.len() ==> store.invoices@[j].order_id@ != id@,
            },
    {
        match query_invoice_by_order_id(&store.invoices, id) {
            Ok(inv) => {
                let invoice = inv.clone();
                proof {
                    let k = choose|k: int|
                        0 <= k < store.invoices@.len() && #[trigger] store.invoices@[k] == *inv
                            && inv.order_id@ == id@ && (forall|j: int|
                            0 <= j < k ==> store.invoices@[j].order_id@ != id@);
                    assert(store.invoices@[k]@ == invoice@);
                }
                Ok(Order { _id: id.clone(), invoice })
            },
            Err(e) => Err(e),
        }
    }

    /// Resolves an invoice id to the first invoice with that id.
    pub fn invoice_entity_resolver<'a>(&self, store: &'a Store, id: &String) -> (r: Result<
        &'a Invoice,
        ProcessingError,
    >)
        ensures
            match r {
                Ok(inv) => exists|k: int|
                    0 <= k < store.invoices@.len() && #[trigger] store.invoices@[k] == *inv
                        && inv._id@ == id@,
                Err(e) => e == ProcessingError::NotFound && forall|j: int|
                    0 <= j < store.invoices@.len() ==> store.invoices@[j]._id@ != id@,
            },
    {
        query_object(&store.invoices, id)
    }

    /// Queries the invoice of the given id.
    pub fn invoice<'a>(&self, store: &'a Store, id: &String) -> (r: Result<
        &'a Invoice,
        ProcessingError,
    >)
        ensures
            match r {
                Ok(inv) => exists|k: int|
                    0 <= k < store.invoices@.len() && #[trigger] store.invoices@[k] == *inv
                        && inv._id@ == id@,
                Err(e) => e == ProcessingError::NotFound && forall|j: int|
                    0 <= j < store.invoices@.len() ==> store.invoices@[j]._id@ != id@,
            },
    {
        query_object(&store.invoices, id)
    }
}


/// The first user of `users` with the given id, if any.
pub open spec fn spec_first_user(users: Seq<UserView>, user_id: Seq<char>) -> Option<UserView>
    decreases users.len(),
{
    if users.len() == 0 {
        None
    } else if users[0].id == user_id {
        Some(users[0])
    } else {
        spec_first_user(users.drop_first(), user_id)
    }
}

/// A first-match index determines what `spec_first_user` returns.
pub proof fn lemma_first_user_from_index(users: Seq<UserView>, user_id: Seq<char>, k: int)
    requires
        0 <= k < users.len(),
        users[k].id == user_id,
        forall|j: int| 0 <= j < k ==> users[j].id != user_id,
    ensures
        spec_first_user(users, user_id) == Some(users[k]),
    decreases k,
{
    if k == 0 {
    } else {
        assert(users.drop_first().len() == users.len() - 1);
        assert forall|j: int| 0 <= j < k - 1 implies users.drop_first()[j].id != user_id by {
            assert(users.drop_first()[j] == users[j + 1]);
        }
        assert(users.drop_first()[k - 1] == users[k]);
        lemma_first_user_from_index(users.drop_first(), user_id, k - 1);
    }
}

/// Where no index matches, `spec_first_user` returns nothing.
pub proof fn lemma_first_user_absent(users: Seq<UserView>, user_id: Seq<char>)
    requires
        forall|j: int| 0 <= j < users.len() ==> users[j].id != user_id,
    ensures
        spec_first_user(users, user_id) is None,
    decreases users.len(),
{
    if users.len() > 0 {
        assert forall|j: int| 0 <= j < users.drop_first().len() implies users.drop_first()[j].id
            != user_id by {
            assert(users.drop_first()[j] == users[j + 1]);
        }
        lemma_first_user_absent(users.drop_first(), user_id);
    }
}

} // verus!
