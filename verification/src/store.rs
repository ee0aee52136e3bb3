//! The persistence gateway model: three independent collections — invoices,
//! the single-slot vendor address, users — and the write operation each event
//! applies, with its idempotency spelled out in the contract.

use vstd::prelude::*;
use crate::foreign_types::{User, UserAddress, UserAddressView, UserView, VendorAddress, VendorAddressView};
use crate::invoice::{Invoice, InvoiceView};
use crate::text::lemma_deep_view_push;

verus! {

/// The mathematical value of a [`Store`].
pub struct StoreView {
    pub invoices: Seq<InvoiceView>,
    pub vendor_address: Option<VendorAddressView>,
    pub users: Seq<UserView>,
}

/// The three collections the service writes into. The vendor address is a
/// single slot, so the singleton invariant is structural.
pub struct Store {
    pub invoices: Vec<Invoice>,
    pub vendor_address: Option<VendorAddress>,
    pub users: Vec<User>,
}

impl View for Store {
    type V = StoreView;

    open spec fn view(&self) -> StoreView {
        StoreView {
            invoices: self.invoices.deep_view(),
            vendor_address: self.vendor_address.deep_view(),
            users: self.users.deep_view(),
        }
    }
}

/// A store with an invoice appended; the other collections as they were.
pub open spec fn spec_insert_invoice(s: StoreView, invoice: InvoiceView) -> StoreView {
    StoreView { invoices: s.invoices.push(invoice), vendor_address: s.vendor_address, users: s.users }
}

/// A store with the vendor address slot overwritten; the other collections
/// as they were.
pub open spec fn spec_upsert_vendor_address(s: StoreView, address: VendorAddressView) -> StoreView {
    StoreView { invoices: s.invoices, vendor_address: Some(address), users: s.users }
}

/// A store with a user appended; the other collections as they were.
pub open spec fn spec_add_user(s: StoreView, user: UserView) -> StoreView {
    StoreView { invoices: s.invoices, vendor_address: s.vendor_address, users: s.users.push(user) }
}

/// `u` with one address appended.
pub open spec fn spec_user_with_pushed_address(u: UserView, address: UserAddressView) -> UserView {
    UserView {
        id: u.id,
        first_name: u.first_name,
        last_name: u.last_name,
        addresses: u.addresses.push(address),
    }
}

/// Holds of the addresses that an archival of `address_id` keeps.
pub open spec fn spec_keeps_address(address_id: Seq<char>) -> spec_fn(UserAddressView) -> bool {
    |a: UserAddressView| a.id != address_id
}

/// `u` with every address of the given id removed.
pub open spec fn spec_user_without_address(u: UserView, address_id: Seq<char>) -> UserView {
    UserView {
        id: u.id,
        first_name: u.first_name,
        last_name: u.last_name,
        addresses: u.addresses.filter(spec_keeps_address(address_id)),
    }
}

/// The index of the first user with the given id, if any.
pub(crate) fn find_user_index(users: &Vec<User>, user_id: &String) -> (r: Option<usize>)
    ensures
        match r {
            Some(i) => {
                &&& 0 <= i < users.deep_view().len()
                &&& users.deep_view()[i as int].id == user_id@
                &&& forall|j: int| 0 <= j < i ==> users.deep_view()[j].id != user_id@
            },
            None => forall|j: int|
                0 <= j < users.deep_view().len() ==> users.deep_view()[j].id != user_id@,
        },
{
    let mut i: usize = 0;
    while i < users.len()
        invariant
            i <= users.len(),
            forall|j: int| 0 <= j < i ==> users.deep_view()[j].id != user_id@,
        decreases users.len() - i,
    {
        if users[i]._id == *user_id {
            proof {
                assert(users.deep_view()[i as int].id == user_id@);
            }
            return Some(i);
        }
        proof {
            assert(users.deep_view()[i as int].id != user_id@);
        }
        i += 1;
    }
    None
}

impl Store {
    /// The empty store.
    pub fn new() -> (r: Self)
        ensures
            r@.invoices =~= Seq::<InvoiceView>::empty(),
            r@.vendor_address is None,
            r@.users =~= Seq::<UserView>::empty(),
    {
        Store { invoices: Vec::new(), vendor_address: None, users: Vec::new() }
    }

    /// Inserts an invoice. No deduplication happens: redelivery of the same
    /// event appends a second document.
    pub fn insert_invoice(&mut self, invoice: Invoice)
        ensures
            final(self)@ == spec_insert_invoice(old(self)@, invoice@),
    {
        let ghost inv_snap = invoice;
        let ghost pre = self.invoices;
        self.invoices.push(invoice);
        proof {
            lemma_deep_view_push(pre, self.invoices, inv_snap);
        }
    }

    /// Overwrites the vendor address slot wholesale. Idempotent: any number
    /// of deliveries converge to one document with the delivered fields.
    pub fn create_or_update_vendor_address(&mut self, vendor_address: VendorAddress)
        ensures
            final(self)@ == spec_upsert_vendor_address(old(self)@, vendor_address@),
    {
        self.vendor_address = Some(vendor_address);
    }

    /// Inserts a user. No deduplication by user id happens.
    pub fn add_user(&mut self, user: User)
        ensures
            final(self)@ == spec_add_user(old(self)@, user@),
    {
        let ghost user_snap = user;
        let ghost pre = self.users;
        self.users.push(user);
        proof {
            lemma_deep_view_push(pre, self.users, user_snap);
        }
    }

    /// Pushes an address into the owning user's address collection — the
    /// first user whose id matches the address's back-reference. Matching no
    /// user is a no-op. No deduplication happens: a repeated push of the
    /// same address id duplicates the entry.
    pub fn insert_user_address(&mut self, user_address: UserAddress) -> (matched: Option<usize>)
        ensures
            final(self)@.invoices == old(self)@.invoices,
            final(self)@.vendor_address == old(self)@.vendor_address,
            match matched {
                Some(i) => {
                    &&& 0 <= i < old(self)@.users.len()
                    &&& old(self)@.users[i as int].id == user_address@.user_id
                    &&& forall|j: int|
                        0 <= j < i ==> old(self)@.users[j].id != user_address@.user_id
                    &&& final(self)@.users == old(self)@.users.update(
                        i as int,
                        spec_user_with_pushed_address(
                            old(self)@.users[i as int],
                            user_address@,
                        ),
                    )
                },
                None => {
                    &&& forall|j: int|
                        0 <= j < old(self)@.users.len() ==> old(self)@.users[j].id
                            != user_address@.user_id
                    &&& final(self)@.users == old(self)@.users
                },
            },
    {
        let ghost av = user_address@;
        let ghost ua_snap = user_address;
        match find_user_index(&self.users, &user_address.user_id) {
            Some(i) => {
                let mut user = self.users.remove(i);
                let ghost addrs_pre = user.addresses;
                user.addresses.push(user_address);
                proof {
                    lemma_deep_view_push(addrs_pre, user.addresses, ua_snap);
                }
                let ghost user_snap = user;
                self.users.insert(i, user);
                proof {
                    assert(user_snap@ == spec_user_with_pushed_address(
                        old(self)@.users[i as int],
                        av,
                    ));
                    let target = old(self)@.users.update(
                        i as int,
                        spec_user_with_pushed_address(old(self)@.users[i as int], av),
                    );
                    assert forall|j: int| 0 <= j < self.users.deep_view().len() implies
                        self.users.deep_view()[j] == target[j] by {
                        if j < i {
                            assert(self.users@[j] == old(self).users@[j]);
                        } else if j == i {
                            assert(self.users@[j] == user_snap);
                        } else {
                            assert(self.users@[j] == old(self).users@[j]);
                        }
                    }
                    assert(self.users.deep_view() =~= target);
                }
                Some(i)
            },
            None => None,
        }
    }

    /// Removes every address with the given id from the owning user's
    /// collection — the first user whose id matches. Matching no user, or a
    /// user not holding the id, is a no-op: the operation is idempotent.
    pub fn remove_user_address(&mut self, user_id: &String, address_id: &String) -> (matched: Option<
        usize,
    >)
        ensures
            final(self)@.invoices == old(self)@.invoices,
            final(self)@.vendor_address == old(self)@.vendor_address,
            match matched {
                Some(i) => {
                    &&& 0 <= i < old(self)@.users.len()
                    &&& old(self)@.users[i as int].id == user_id@
                    &&& forall|j: int| 0 <= j < i ==> old(self)@.users[j].id != user_id@
                    &&& final(self)@.users == old(self)@.users.update(
                        i as int,
                        spec_user_without_address(old(self)@.users[i as int], address_id@),
                    )
                },
                None => {
                    &&& forall|j: int|
                        0 <= j < old(self)@.users.len() ==> old(self)@.users[j].id != user_id@
                    &&& final(self)@.users == old(self)@.users
                },
            },
    {
        match find_user_index(&self.users, user_id) {
            Some(i) => {
                let mut user = self.users.remove(i);
                let kept = filter_addresses(&user.addresses, address_id);
                user.addresses = kept;
                let ghost user_snap = user;
                self.users.insert(i, user);
                proof {
                    assert(user_snap@ == spec_user_without_address(
                        old(self)@.users[i as int],
                        address_id@,
                    ));
                    let target = old(self)@.users.update(
                        i as int,
                        spec_user_without_address(old(self)@.users[i as int], address_id@),
                    );
                    assert forall|j: int| 0 <= j < self.users.deep_view().len() implies
                        self.users.deep_view()[j] == target[j] by {
                        if j < i {
                            assert(self.users@[j] == old(self).users@[j]);
                        } else if j == i {
                            assert(self.users@[j] == user_snap);
                        } else {
                            assert(self.users@[j] == old(self).users@[j]);
                        }
                    }
                    assert(self.users.deep_view() =~= target);
                }
                Some(i)
            },
            None => None,
        }
    }
}

/// The addresses of `addrs` whose id differs from `address_id`, in order.
fn filter_addresses(addrs: &Vec<UserAddress>, address_id: &String) -> (r: Vec<UserAddress>)
    ensures
        r.deep_view() == addrs.deep_view().filter(spec_keeps_address(address_id@)),
{
    let ghost pred = spec_keeps_address(address_id@);
    let mut r: Vec<UserAddress> = Vec::new();
    let mut j: usize = 0;
    proof {
        reveal_with_fuel(Seq::filter, 1);
        assert(addrs.deep_view().take(0).filter(pred) =~= Seq::<UserAddressView>::empty());
    }
    while j < addrs.len()
        invariant
            j <= addrs.len(),
            r.deep_view() == addrs.deep_view().take(j as int).filter(
                spec_keeps_address(address_id@),
            ),
        decreases addrs.len() - j,
    {
        let ghost pre_take = addrs.deep_view().take(j as int);
        let ghost post_take = addrs.deep_view().take(j + 1 as int);
        proof {
            reveal_with_fuel(Seq::filter, 1);
            assert(post_take.drop_last() =~= pre_take);
            assert(post_take.last() == addrs.deep_view()[j as int]);
        }
        let keep = !(addrs[j]._id == *address_id);
        if keep {
            let item = addrs[j].clone();
            let ghost item_snap = item;
            let ghost pre = r;
            r.push(item);
            proof {
                lemma_deep_view_push(pre, r, item_snap);
                assert(r.deep_view() =~= post_take.filter(spec_keeps_address(address_id@)));
            }
        } else {
            proof {
                assert(r.deep_view() =~= post_take.filter(spec_keeps_address(address_id@)));
            }
        }
        j += 1;
    }
    proof {
        assert(addrs.deep_view().take(addrs.deep_view().len() as int) =~= addrs.deep_view());
    }
    r
}


/// Some user of `users` has the given id.
pub open spec fn spec_has_user(users: Seq<UserView>, user_id: Seq<char>) -> bool {
    exists|i: int| 0 <= i < users.len() && (#[trigger] users[i]).id == user_id
}

/// `users1` is `users0` with `address` pushed into the first user whose id
/// matches the address's back-reference, or `users0` itself where no user
/// matches.
pub open spec fn spec_pushed_into_first_match(
    users0: Seq<UserView>,
    users1: Seq<UserView>,
    address: UserAddressView,
) -> bool {
    if spec_has_user(users0, address.user_id) {
        exists|i: int|
            0 <= i < users0.len() && (#[trigger] users0[i]).id == address.user_id && (forall|j: int|
                0 <= j < i ==> users0[j].id != address.user_id) && users1 == users0.update(
                i,
                spec_user_with_pushed_address(users0[i], address),
            )
    } else {
        users1 == users0
    }
}

/// `users1` is `users0` with every address of the given id removed from the
/// first user whose id matches, or `users0` itself where no user matches.
pub open spec fn spec_removed_from_first_match(
    users0: Seq<UserView>,
    users1: Seq<UserView>,
    user_id: Seq<char>,
    address_id: Seq<char>,
) -> bool {
    if spec_has_user(users0, user_id) {
        exists|i: int|
            0 <= i < users0.len() && (#[trigger] users0[i]).id == user_id && (forall|j: int|
                0 <= j < i ==> users0[j].id != user_id) && users1 == users0.update(
                i,
                spec_user_without_address(users0[i], address_id),
            )
    } else {
        users1 == users0
    }
}


/// Holds of the invoices persisted for one order id.
pub open spec fn spec_is_invoice_for(order_id: Seq<char>) -> spec_fn(InvoiceView) -> bool {
    |i: InvoiceView| i.order_id == order_id
}

/// How many invoices of `invoices` belong to the given order id.
pub open spec fn spec_count_invoices_for_order(
    invoices: Seq<InvoiceView>,
    order_id: Seq<char>,
) -> nat {
    invoices.filter(spec_is_invoice_for(order_id)).len()
}

/// Law: redelivering the identical validation event a second time yields a
/// second invoice for the same order id — the insert deduplicates nothing,
/// so the at-least-once delivery gap is documented, not fixed.
pub proof fn lemma_redelivery_duplicates(
    s: StoreView,
    inv1: InvoiceView,
    inv2: InvoiceView,
    order_id: Seq<char>,
)
    requires
        inv1.order_id == order_id,
        inv2.order_id == order_id,
    ensures
        spec_count_invoices_for_order(
            spec_insert_invoice(spec_insert_invoice(s, inv1), inv2).invoices,
            order_id,
        ) == spec_count_invoices_for_order(s.invoices, order_id) + 2,
{
    lemma_filter_push_kept(s.invoices, inv1, order_id);
    lemma_filter_push_kept(s.invoices.push(inv1), inv2, order_id);
}

/// Pushing an invoice of the order id grows the filtered count by one.
proof fn lemma_filter_push_kept(invoices: Seq<InvoiceView>, inv: InvoiceView, order_id: Seq<char>)
    requires
        inv.order_id == order_id,
    ensures
        invoices.push(inv).filter(spec_is_invoice_for(order_id)) == invoices.filter(
            spec_is_invoice_for(order_id),
        ).push(inv),
{
    reveal_with_fuel(Seq::filter, 1);
    assert(invoices.push(inv).drop_last() =~= invoices);
    assert(invoices.push(inv).last() == inv);
}

/// The store after a sequence of vendor-address creation deliveries, applied
/// in delivery order.
pub open spec fn spec_apply_vendor_events(
    s: StoreView,
    addresses: Seq<VendorAddressView>,
) -> StoreView
    decreases addresses.len(),
{
    if addresses.len() == 0 {
        s
    } else {
        spec_apply_vendor_events(spec_upsert_vendor_address(s, addresses[0]), addresses.drop_first())
    }
}

/// Law: any number of vendor-address-created deliveries leaves exactly one
/// vendor address — the single slot holds the most recently delivered one —
/// and leaves invoices and users untouched.
pub proof fn lemma_vendor_upserts_converge(s: StoreView, addresses: Seq<VendorAddressView>)
    requires
        addresses.len() > 0,
    ensures
        spec_apply_vendor_events(s, addresses).vendor_address == Some(addresses.last()),
        spec_apply_vendor_events(s, addresses).invoices == s.invoices,
        spec_apply_vendor_events(s, addresses).users == s.users,
    decreases addresses.len(),
{
    if addresses.len() == 1 {
    } else {
        lemma_vendor_upserts_converge(
            spec_upsert_vendor_address(s, addresses[0]),
            addresses.drop_first(),
        );
        assert(addresses.drop_first().last() == addresses.last());
    }
}

/// Every address the filter keeps has a different id.
proof fn lemma_filter_all_kept(addrs: Seq<UserAddressView>, address_id: Seq<char>)
    requires
        forall|k: int| 0 <= k < addrs.len() ==> addrs[k].id != address_id,
    ensures
        addrs.filter(spec_keeps_address(address_id)) == addrs,
    decreases addrs.len(),
{
    reveal_with_fuel(Seq::filter, 1);
    if addrs.len() == 0 {
        assert(addrs.filter(spec_keeps_address(address_id)) =~= addrs);
    } else {
        assert forall|k: int| 0 <= k < addrs.drop_last().len() implies addrs.drop_last()[k].id
            != address_id by {
            assert(addrs.drop_last()[k] == addrs[k]);
        }
        lemma_filter_all_kept(addrs.drop_last(), address_id);
        assert(addrs.drop_last().push(addrs.last()) =~= addrs);
    }
}

/// Law: archiving an address id that a user does not hold leaves the user
/// unchanged — the removal is a no-op, so the operation is idempotent.
pub proof fn lemma_archive_absent_id_noop(u: UserView, address_id: Seq<char>)
    requires
        forall|k: int| 0 <= k < u.addresses.len() ==> u.addresses[k].id != address_id,
    ensures
        spec_user_without_address(u, address_id) == u,
{
    lemma_filter_all_kept(u.addresses, address_id);
}


/// Law: an archive delivery removes exactly the addresses with the matching
/// id — every kept address has a different id, every address with a
/// different id is kept — and the user's other fields do not change.
pub proof fn lemma_archive_removes_exactly_matching(u: UserView, address_id: Seq<char>)
    ensures
        spec_user_without_address(u, address_id).id == u.id,
        spec_user_without_address(u, address_id).first_name == u.first_name,
        spec_user_without_address(u, address_id).last_name == u.last_name,
        forall|k: int|
            0 <= k < spec_user_without_address(u, address_id).addresses.len() ==> (
            #[trigger] spec_user_without_address(u, address_id).addresses[k]).id != address_id,
        forall|k: int|
            0 <= k < u.addresses.len() && (#[trigger] u.addresses[k]).id != address_id
                ==> spec_user_without_address(u, address_id).addresses.contains(u.addresses[k]),
{
    u.addresses.filter_lemma(spec_keeps_address(address_id));
}

} // verus!
