//! Entities owned by other services that this service keeps copies of: the
//! buyer, the buyer's addresses and the vendor's address.

use vstd::prelude::*;
use crate::http_event_service::{UserAddressEventData, UserEventData, VendorAddressEventData};
use crate::text::{clone_opt_string, lemma_deep_view_push};

verus! {

/// The mathematical value of a [`UserAddress`].
pub struct UserAddressView {
    pub id: Seq<char>,
    pub street1: Seq<char>,
    pub street2: Seq<char>,
    pub city: Seq<char>,
    pub postal_code: Seq<char>,
    pub country: Seq<char>,
    pub company_name: Option<Seq<char>>,
    pub user_id: Seq<char>,
}

/// An address embedded in a user, with a back-reference to its owner.
pub struct UserAddress {
    pub _id: String,
    pub street1: String,
    pub street2: String,
    pub city: String,
    pub postal_code: String,
    pub country: String,
    pub company_name: Option<String>,
    pub user_id: String,
}

impl View for UserAddress {
    type V = UserAddressView;

    open spec fn view(&self) -> UserAddressView {
        UserAddressView {
            id: self._id@,
            street1: self.street1@,
            street2: self.street2@,
            city: self.city@,
            postal_code: self.postal_code@,
            country: self.country@,
            company_name: self.company_name.deep_view(),
            user_id: self.user_id@,
        }
    }
}

impl DeepView for UserAddress {
    type V = UserAddressView;

    open spec fn deep_view(&self) -> UserAddressView {
        self.view()
    }
}

impl Clone for UserAddress {
    fn clone(&self) -> (res: Self)
        ensures
            res@ == self@,
    {
        UserAddress {
            _id: self._id.clone(),
            street1: self.street1.clone(),
            street2: self.street2.clone(),
            city: self.city.clone(),
            postal_code: self.postal_code.clone(),
            country: self.country.clone(),
            company_name: clone_opt_string(&self.company_name),
            user_id: self.user_id.clone(),
        }
    }
}

impl UserAddress {
    /// The address carried by a user-address creation event.
    pub fn from_event(value: UserAddressEventData) -> (r: Self)
        ensures
            r@ == (UserAddressView {
                id: value.id@,
                street1: value.street1@,
                street2: value.street2@,
                city: value.city@,
                postal_code: value.postal_code@,
                country: value.country@,
                company_name: value.company_name.deep_view(),
                user_id: value.user_id@,
            }),
    {
        UserAddress {
            _id: value.id,
            street1: value.street1,
            street2: value.street2,
            city: value.city,
            postal_code: value.postal_code,
            country: value.country,
            company_name: value.company_name,
            user_id: value.user_id,
        }
    }
}

/// The mathematical value of a [`User`].
pub struct UserView {
    pub id: Seq<char>,
    pub first_name: Seq<char>,
    pub last_name: Seq<char>,
    pub addresses: Seq<UserAddressView>,
}

/// A buyer, with the embedded collection of the buyer's addresses.
///
/// Intended invariant: address ids within one user are unique. The address
/// push operation does not enforce it, so the store states it nowhere.
pub struct User {
    pub _id: String,
    pub first_name: String,
    pub last_name: String,
    pub addresses: Vec<UserAddress>,
}

impl View for User {
    type V = UserView;

    open spec fn view(&self) -> UserView {
        UserView {
            id: self._id@,
            first_name: self.first_name@,
            last_name: self.last_name@,
            addresses: self.addresses.deep_view(),
        }
    }
}

impl DeepView for User {
    type V = UserView;

    open spec fn deep_view(&self) -> UserView {
        self.view()
    }
}

impl Clone for User {
    fn clone(&self) -> (res: Self)
        ensures
            res@ == self@,
    {
        let mut addresses: Vec<UserAddress> = Vec::new();
        let mut i: usize = 0;
        while i < self.addresses.len()
            invariant
                i <= self.addresses.len(),
                addresses.deep_view() == self.addresses.deep_view().take(i as int),
            decreases self.addresses.len() - i,
        {
            let item = self.addresses[i].clone();
            let ghost item_snap = item;
            let ghost pre = addresses;
            addresses.push(item);
            proof {
                lemma_deep_view_push(pre, addresses, item_snap);
                assert(addresses.deep_view() =~= self.addresses.deep_view().take(i + 1 as int));
            }
            i += 1;
        }
        proof {
            assert(addresses.deep_view() =~= self.addresses.deep_view());
        }
        User {
            _id: self._id.clone(),
            first_name: self.first_name.clone(),
            last_name: self.last_name.clone(),
            addresses,
        }
    }
}

impl User {
    /// The user carried by a user creation event; the address collection
    /// starts empty.
    pub fn from_event(value: UserEventData) -> (r: Self)
        ensures
            r@ == (UserView {
                id: value.id@,
                first_name: value.first_name@,
                last_name: value.last_name@,
                addresses: Seq::<UserAddressView>::empty(),
            }),
    {
        let r = User {
            _id: value.id,
            first_name: value.first_name,
            last_name: value.last_name,
            addresses: Vec::new(),
        };
        proof {
            assert(r@.addresses =~= Seq::<UserAddressView>::empty());
        }
        r
    }
}

/// The mathematical value of a [`VendorAddress`].
pub struct VendorAddressView {
    pub id: Seq<char>,
    pub street1: Seq<char>,
    pub street2: Seq<char>,
    pub city: Seq<char>,
    pub postal_code: Seq<char>,
    pub country: Seq<char>,
    pub company_name: Seq<char>,
}

/// The vendor's address. The store keeps at most one: every creation event
/// overwrites it wholesale.
pub struct VendorAddress {
    pub _id: String,
    pub street1: String,
    pub street2: String,
    pub city: String,
    pub postal_code: String,
    pub country: String,
    pub company_name: String,
}

impl View for VendorAddress {
    type V = VendorAddressView;

    open spec fn view(&self) -> VendorAddressView {
        VendorAddressView {
            id: self._id@,
            street1: self.street1@,
            street2: self.street2@,
            city: self.city@,
            postal_code: self.postal_code@,
            country: self.country@,
            company_name: self.company_name@,
        }
    }
}

impl DeepView for VendorAddress {
    type V = VendorAddressView;

    open spec fn deep_view(&self) -> VendorAddressView {
        self.view()
    }
}

impl Clone for VendorAddress {
    fn clone(&self) -> (res: Self)
        ensures
            res@ == self@,
    {
        VendorAddress {
            _id: self._id.clone(),
            street1: self.street1.clone(),
            street2: self.street2.clone(),
            city: self.city.clone(),
            postal_code: self.postal_code.clone(),
            country: self.country.clone(),
            company_name: self.company_name.clone(),
        }
    }
}

impl VendorAddress {
    /// The address carried by a vendor-address creation event.
    pub fn from_event(value: VendorAddressEventData) -> (r: Self)
        ensures
            r@ == (VendorAddressView {
                id: value.id@,
                street1: value.street1@,
                street2: value.street2@,
                city: value.city@,
                postal_code: value.postal_code@,
                country: value.country@,
                company_name: value.company_name@,
            }),
    {
        VendorAddress {
            _id: value.id,
            street1: value.street1,
            street2: value.street2,
            city: value.city,
            postal_code: value.postal_code,
            country: value.country,
            company_name: value.company_name,
        }
    }
}

} // verus!
