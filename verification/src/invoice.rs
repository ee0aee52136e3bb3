//! The invoice entity, its deterministic rendering, and its synthesis from
//! an order snapshot and the aggregated entities.

use vstd::prelude::*;
use crate::datetime::{format_datetime, spec_format_datetime, DateTime};
use crate::foreign_types::{User, UserAddress, UserAddressView, UserView, VendorAddress, VendorAddressView};
use crate::http_event_service::{OrderEventData, OrderEventDataView, OrderItemEventDataView};
use crate::text::{clone_opt_string, contains_seq, dec_rep, lemma_contains_extend_left,
    lemma_contains_extend_right, lemma_contains_here, u64_to_string};
use crate::datetime::now_datetime;
use crate::errors::ProcessingError;
use crate::query::{
    project_user_to_user_address, query_object, query_user_address_user, query_vendor_address,
    lemma_first_user_from_index, lemma_first_user_absent, spec_find_owner, spec_first_user,
    Identified,
};
use crate::store::{Store, StoreView};

verus! {

/// The mathematical value of an [`Invoice`].
pub struct InvoiceView {
    pub id: Seq<char>,
    pub order_id: Seq<char>,
    pub issued_at: DateTime,
    pub content: Seq<char>,
    pub user_address: UserAddressView,
    pub vendor_address: VendorAddressView,
    pub vat_number: Option<Seq<char>>,
}

/// The invoice of an order: the rendered text plus the structured fields it
/// was rendered from. Created once per successfully processed validation
/// event and never mutated afterward.
pub struct Invoice {
    pub _id: String,
    pub order_id: String,
    pub issued_at: DateTime,
    pub content: String,
    pub user_address: UserAddress,
    pub vendor_address: VendorAddress,
    pub vat_number: Option<String>,
}

impl View for Invoice {
    type V = InvoiceView;

    open spec fn view(&self) -> InvoiceView {
        InvoiceView {
            id: self._id@,
            order_id: self.order_id@,
            issued_at: self.issued_at,
            content: self.content@,
            user_address: self.user_address@,
            vendor_address: self.vendor_address@,
            vat_number: self.vat_number.deep_view(),
        }
    }
}

impl DeepView for Invoice {
    type V = InvoiceView;

    open spec fn deep_view(&self) -> InvoiceView {
        self.view()
    }
}

impl Clone for Invoice {
    fn clone(&self) -> (res: Self)
        ensures
            res@ == self@,
    {
        Invoice {
            _id: self._id.clone(),
            order_id: self.order_id.clone(),
            issued_at: self.issued_at,
            content: self.content.clone(),
            user_address: self.user_address.clone(),
            vendor_address: self.vendor_address.clone(),
            vat_number: clone_opt_string(&self.vat_number),
        }
    }
}

/// The mathematical value of an [`InvoiceDTO`].
pub struct InvoiceDTOView {
    pub order_id: Seq<char>,
    pub issued_at: DateTime,
    pub content: Seq<char>,
}

/// The slice of an invoice that the downstream created-event carries: only
/// the order id, the issue timestamp and the rendered content.
pub struct InvoiceDTO {
    pub order_id: String,
    pub issued_at: DateTime,
    pub content: String,
}

impl View for InvoiceDTO {
    type V = InvoiceDTOView;

    open spec fn view(&self) -> InvoiceDTOView {
        InvoiceDTOView {
            order_id: self.order_id@,
            issued_at: self.issued_at,
            content: self.content@,
        }
    }
}

impl InvoiceDTO {
    /// Projects an invoice to the slice the downstream event carries.
    pub fn from_invoice(invoice: &Invoice) -> (r: Self)
        ensures
            r@ == (InvoiceDTOView {
                order_id: invoice@.order_id,
                issued_at: invoice@.issued_at,
                content: invoice@.content,
            }),
    {
        InvoiceDTO {
            order_id: invoice.order_id.clone(),
            issued_at: invoice.issued_at,
            content: invoice.content.clone(),
        }
    }
}

/// The mathematical value of an [`InvoiceCreatedDTO`].
pub struct InvoiceCreatedDTOView {
    pub order: OrderEventDataView,
    pub invoice: InvoiceDTOView,
}

/// The payload of the downstream invoice-created event: the original order
/// snapshot together with the derived invoice slice.
pub struct InvoiceCreatedDTO {
    pub order: OrderEventData,
    pub invoice: InvoiceDTO,
}

impl View for InvoiceCreatedDTO {
    type V = InvoiceCreatedDTOView;

    open spec fn view(&self) -> InvoiceCreatedDTOView {
        InvoiceCreatedDTOView { order: self.order@, invoice: self.invoice@ }
    }
}

impl InvoiceCreatedDTO {
    /// Pairs the order snapshot with the invoice slice.
    pub fn from_parts(order: OrderEventData, invoice: InvoiceDTO) -> (r: Self)
        ensures
            r@.order == order@,
            r@.invoice == invoice@,
    {
        InvoiceCreatedDTO { order, invoice }
    }
}

/// Relies on `bson::Uuid::new` and its `Display` rendering: a random UUID in
/// the hyphenated form of 36 characters.
#[verifier::external_body]
pub(crate) fn fresh_invoice_id() -> (r: String)
    ensures
        r@.len() == 36,
{
    bson::Uuid::new().to_string()
}


/// The fixed terms-and-conditions sentence every invoice carries.
pub open spec fn spec_invoice_terms() -> Seq<char> {
    "This invoice is created according the the companies terms and conditions specified on the website."@
}

/// The terms-and-conditions sentence.
pub fn invoice_terms() -> (r: &'static str)
    ensures
        r@ == spec_invoice_terms(),
{
    "This invoice is created according the the companies terms and conditions specified on the website."
}

/// The VAT line: the order's VAT number where present, else the placeholder.
pub open spec fn spec_vat_text(vat_number: Option<Seq<char>>) -> Seq<char> {
    match vat_number {
        Some(v) => v,
        None => "-"@,
    }
}

/// The customer block's company line: the address's company name where
/// present, else empty.
pub open spec fn spec_company_text(company_name: Option<Seq<char>>) -> Seq<char> {
    match company_name {
        Some(c) => c,
        None => ""@,
    }
}

/// One row of the item table: the item's id, its product variant id, its
/// count and its compensatable amount.
pub open spec fn spec_item_row(item: OrderItemEventDataView) -> Seq<char> {
    "| "@ + item.id + " | "@ + item.product_variant_id + " | "@ + dec_rep(item.count as nat)
        + " | "@ + dec_rep(item.compensatable_amount as nat) + " |\n"@
}

/// The rows of the item table, one per order item, in input order.
pub open spec fn spec_item_rows(items: Seq<OrderItemEventDataView>) -> Seq<char>
    decreases items.len(),
{
    if items.len() == 0 {
        Seq::<char>::empty()
    } else {
        spec_item_rows(items.drop_last()) + spec_item_row(items.last())
    }
}

/// The item table: a header and one row per order item.
pub open spec fn spec_items_overview(items: Seq<OrderItemEventDataView>) -> Seq<char> {
    "| Item UUID | Product variant UUID | count | Compensatable amount |\n"@
        + "| --- | --- | --- | --- |\n"@ + spec_item_rows(items)
}

/// Builds the part of the invoice content which describes the order items as
/// a markdown table.
#[verifier::rlimit(50)]
pub fn build_order_item_invoice_content(value: &OrderEventData) -> (r: String)
    ensures
        r@ == spec_items_overview(value@.order_items),
{
    let ghost items = value.order_items.deep_view();
    let mut content = String::new();
    content.append("| Item UUID | Product variant UUID | count | Compensatable amount |\n");
    content.append("| --- | --- | --- | --- |\n");
    let ghost header = content@;
    let mut i: usize = 0;
    proof {
        assert(items.take(0) =~= Seq::<OrderItemEventDataView>::empty());
    }
    while i < value.order_items.len()
        invariant
            i <= value.order_items.len(),
            items == value.order_items.deep_view(),
            header == "| Item UUID | Product variant UUID | count | Compensatable amount |\n"@
                + "| --- | --- | --- | --- |\n"@,
            content@ == header + spec_item_rows(items.take(i as int)),
        decreases value.order_items.len() - i,
    {
        let item = &value.order_items[i];
        content.append("| ");
        content.append(item.id.as_str());
        content.append(" | ");
        content.append(item.product_variant_id.as_str());
        content.append(" | ");
        content.append(u64_to_string(item.count).as_str());
        content.append(" | ");
        content.append(u64_to_string(item.compensatable_amount).as_str());
        content.append(" |\n");
        proof {
            assert(items.take(i + 1 as int).drop_last() =~= items.take(i as int));
            assert(items.take(i + 1 as int).last() == items[i as int]);
            assert(content@ == header + (spec_item_rows(items.take(i as int)) + spec_item_row(
                items[i as int],
            )));
            assert(content@ == header + spec_item_rows(items.take(i + 1 as int)));
        }
        i += 1;
    }
    proof {
        assert(items.take(value.order_items@.len() as int) =~= items);
    }
    content
}


/// Everything of the rendered invoice text that stands before the item
/// table: vendor block, VAT line, customer block, invoice header and terms.
pub open spec fn spec_invoice_header(
    order: OrderEventDataView,
    user_address: UserAddressView,
    vendor_address: VendorAddressView,
    user: UserView,
    invoice_id: Seq<char>,
    issued_at: DateTime,
) -> Seq<char> {
    "\n# Invoice\n\n### Company information:\n"@ + vendor_address.company_name + "\n"@
        + vendor_address.street1 + ", "@ + vendor_address.street2 + "\n"@ + vendor_address.city
        + ", "@ + vendor_address.country + "\n\nVAT number: "@ + spec_vat_text(order.vat_number)
        + "\n\n### Customer information:\nID: "@ + user.id + "\nName: "@ + user.first_name + ", "@
        + user.last_name + "\nAddress:\n"@ + spec_company_text(user_address.company_name) + "\n"@
        + user_address.street1 + ", "@ + user_address.street2 + "\n"@ + user_address.city + ", "@
        + user_address.country + "\n\n### Invoice ID: "@ + invoice_id + ", issued at: "@
        + spec_format_datetime(issued_at) + " \n\nTerms and conditions: "@ + spec_invoice_terms()
        + "\n\n---\n\nPurchased items overview:\n\n"@
}

/// The full rendered invoice text: vendor block, VAT line, customer block,
/// invoice header, terms, item table, and the order's total.
pub open spec fn spec_invoice_content(
    order: OrderEventDataView,
    user_address: UserAddressView,
    vendor_address: VendorAddressView,
    user: UserView,
    invoice_id: Seq<char>,
    issued_at: DateTime,
) -> Seq<char> {
    spec_invoice_header(order, user_address, vendor_address, user, invoice_id, issued_at)
        + spec_items_overview(order.order_items)
        + "\n\n---\n\nTotal compensatable amount: "@ + dec_rep(
        order.compensatable_order_amount as nat,
    ) + "\n"@
}

/// Renders the invoice text: a pure, deterministic function of the order
/// snapshot, the resolved addresses, the buyer, the generated invoice id and
/// the issue timestamp.
pub fn render_invoice_content(
    order: &OrderEventData,
    user_address: &UserAddress,
    vendor_address: &VendorAddress,
    user: &User,
    invoice_id: &String,
    issued_at: &DateTime,
) -> (r: String)
    ensures
        r@ == spec_invoice_content(
            order@,
            user_address@,
            vendor_address@,
            user@,
            invoice_id@,
            *issued_at,
        ),
{
    let mut s = String::new();
    s.append("\n# Invoice\n\n### Company information:\n");
    s.append(vendor_address.company_name.as_str());
    s.append("\n");
    s.append(vendor_address.street1.as_str());
    s.append(", ");
    s.append(vendor_address.street2.as_str());
    s.append("\n");
    s.append(vendor_address.city.as_str());
    s.append(", ");
    s.append(vendor_address.country.as_str());
    s.append("\n\nVAT number: ");
    match &order.vat_number {
        Some(v) => s.append(v.as_str()),
        None => s.append("-"),
    }
    s.append("\n\n### Customer information:\nID: ");
    s.append(user._id.as_str());
    s.append("\nName: ");
    s.append(user.first_name.as_str());
    s.append(", ");
    s.append(user.last_name.as_str());
    s.append("\nAddress:\n");
    match &user_address.company_name {
        Some(c) => s.append(c.as_str()),
        None => s.append(""),
    }
    s.append("\n");
    s.append(user_address.street1.as_str());
    s.append(", ");
    s.append(user_address.street2.as_str());
    s.append("\n");
    s.append(user_address.city.as_str());
    s.append(", ");
    s.append(user_address.country.as_str());
    s.append("\n\n### Invoice ID: ");
    s.append(invoice_id.as_str());
    s.append(", issued at: ");
    s.append(format_datetime(issued_at).as_str());
    s.append(" \n\nTerms and conditions: ");
    s.append(invoice_terms());
    s.append("\n\n---\n\nPurchased items overview:\n\n");
    s.append(build_order_item_invoice_content(order).as_str());
    s.append("\n\n---\n\nTotal compensatable amount: ");
    s.append(u64_to_string(order.compensatable_order_amount).as_str());
    s.append("\n");
    s
}


/// All three aggregation lookups succeed on this store for this order: a
/// user owns the order's invoice address, a vendor address exists, and a
/// user has the order's user id.
pub open spec fn spec_aggregation_possible(s: StoreView, order: OrderEventDataView) -> bool {
    &&& spec_find_owner(s.users, order.invoice_address_id) is Some
    &&& s.vendor_address is Some
    &&& spec_first_user(s.users, order.user_id) is Some
}

/// `inv` is an invoice synthesized for `order` against store `s`: its
/// structured fields come from the aggregated entities, and its content is
/// the deterministic rendering of those fields.
pub open spec fn spec_invoice_for_order(s: StoreView, order: OrderEventDataView, inv: InvoiceView) -> bool {
    &&& spec_find_owner(s.users, order.invoice_address_id) matches Some(owner)
    &&& s.vendor_address matches Some(vendor)
    &&& spec_first_user(s.users, order.user_id) matches Some(buyer)
    &&& inv.order_id == order.id
    &&& inv.user_address == owner.1
    &&& inv.vendor_address == vendor
    &&& inv.vat_number == order.vat_number
    &&& inv.issued_at.wf()
    &&& inv.id.len() == 36
    &&& inv.content == spec_invoice_content(order, owner.1, vendor, buyer, inv.id, inv.issued_at)
}

impl Invoice {
    /// Synthesizes a new invoice for the order against the store: resolves
    /// the buyer's invoice address, the vendor address and the buyer, draws
    /// a fresh id and the current time, and renders the content. Fails with
    /// `NotFound` exactly where one of the three lookups fails; the store is
    /// read, never written.
    pub fn new(order_event_data: &OrderEventData, store: &Store) -> (r: Result<
        Invoice,
        ProcessingError,
    >)
        ensures
            match r {
                Ok(inv) => spec_aggregation_possible(store@, order_event_data@)
                    && spec_invoice_for_order(store@, order_event_data@, inv@),
                Err(e) => e == ProcessingError::NotFound && !spec_aggregation_possible(
                    store@,
                    order_event_data@,
                ),
            },
    {
        let _id = fresh_invoice_id();
        let issued_at = now_datetime();
        let user_address_user = match query_user_address_user(
            &store.users,
            &order_event_data.invoice_address_id,
        ) {
            Ok(u) => u,
            Err(e) => {
                return Err(e);
            },
        };
        let user_address = match project_user_to_user_address(&user_address_user) {
            Ok(a) => a,
            Err(e) => {
                return Err(e);
            },
        };
        let vendor_address = match query_vendor_address(store) {
            Ok(v) => v,
            Err(e) => {
                return Err(e);
            },
        };
        let user = match query_object(&store.users, &order_event_data.user_id) {
            Ok(u) => u,
            Err(e) => {
                proof {
                    lemma_first_user_absent(store@.users, order_event_data@.user_id);
                }
                return Err(e);
            },
        };
        proof {
            let k = choose|k: int|
                0 <= k < store.users@.len() && #[trigger] store.users@[k] == *user && user.sid()
                    == order_event_data.user_id@ && (forall|j: int|
                    0 <= j < k ==> store.users@[j].sid() != order_event_data.user_id@);
            assert(store@.users[k] == user@);
            assert forall|j: int| 0 <= j < k implies store@.users[j].id
                != order_event_data@.user_id by {
                assert(store.users@[j].sid() != order_event_data.user_id@);
            }
            lemma_first_user_from_index(store@.users, order_event_data@.user_id, k);
        }
        let content = render_invoice_content(
            order_event_data,
            &user_address,
            &vendor_address,
            user,
            &_id,
            &issued_at,
        );
        let vat_number = clone_opt_string(&order_event_data.vat_number);
        Ok(
            Invoice {
                _id,
                order_id: order_event_data.id.clone(),
                issued_at,
                content,
                user_address,
                vendor_address,
                vat_number,
            },
        )
    }
}


/// One table row contains the item's id and its compensatable amount.
proof fn lemma_row_contains(item: OrderItemEventDataView)
    ensures
        contains_seq(spec_item_row(item), item.id),
        contains_seq(spec_item_row(item), dec_rep(item.compensatable_amount as nat)),
{
    let head = "| "@;
    let amount = dec_rep(item.compensatable_amount as nat);
    let before_amount = "| "@ + item.id + " | "@ + item.product_variant_id + " | "@ + dec_rep(
        item.count as nat,
    ) + " | "@;
    assert((head + item.id).subrange(head.len() as int, (head.len() + item.id.len()) as int)
        =~= item.id);
    assert(contains_seq(head + item.id, item.id));
    lemma_contains_extend_right(head + item.id, item.id, " | "@);
    lemma_contains_extend_right(head + item.id + " | "@, item.id, item.product_variant_id);
    lemma_contains_extend_right(
        head + item.id + " | "@ + item.product_variant_id,
        item.id,
        " | "@,
    );
    lemma_contains_extend_right(
        head + item.id + " | "@ + item.product_variant_id + " | "@,
        item.id,
        dec_rep(item.count as nat),
    );
    lemma_contains_extend_right(
        head + item.id + " | "@ + item.product_variant_id + " | "@ + dec_rep(item.count as nat),
        item.id,
        " | "@,
    );
    lemma_contains_extend_right(before_amount, item.id, amount);
    lemma_contains_extend_right(before_amount + amount, item.id, " |\n"@);
    assert((before_amount + amount).subrange(
        before_amount.len() as int,
        (before_amount.len() + amount.len()) as int,
    ) =~= amount);
    assert(contains_seq(before_amount + amount, amount));
    lemma_contains_extend_right(before_amount + amount, amount, " |\n"@);
}

/// The item table contains every row's id and compensatable amount.
proof fn lemma_item_rows_contains(items: Seq<OrderItemEventDataView>, k: int)
    requires
        0 <= k < items.len(),
    ensures
        contains_seq(spec_item_rows(items), items[k].id),
        contains_seq(spec_item_rows(items), dec_rep(items[k].compensatable_amount as nat)),
    decreases items.len(),
{
    if k == items.len() - 1 {
        lemma_row_contains(items.last());
        lemma_contains_extend_left(
            spec_item_rows(items.drop_last()),
            spec_item_row(items.last()),
            items.last().id,
        );
        lemma_contains_extend_left(
            spec_item_rows(items.drop_last()),
            spec_item_row(items.last()),
            dec_rep(items.last().compensatable_amount as nat),
        );
    } else {
        assert(items.drop_last()[k] == items[k]);
        lemma_item_rows_contains(items.drop_last(), k);
        lemma_contains_extend_right(
            spec_item_rows(items.drop_last()),
            items[k].id,
            spec_item_row(items.last()),
        );
        lemma_contains_extend_right(
            spec_item_rows(items.drop_last()),
            dec_rep(items[k].compensatable_amount as nat),
            spec_item_row(items.last()),
        );
    }
}

/// Law: the rendered invoice content contains every order item's id and
/// compensatable amount, and the order's total compensatable amount.
pub proof fn lemma_invoice_content_lists_items(
    order: OrderEventDataView,
    user_address: UserAddressView,
    vendor_address: VendorAddressView,
    user: UserView,
    invoice_id: Seq<char>,
    issued_at: DateTime,
)
    ensures
        forall|k: int|
            0 <= k < order.order_items.len() ==> contains_seq(
                spec_invoice_content(
                    order,
                    user_address,
                    vendor_address,
                    user,
                    invoice_id,
                    issued_at,
                ),
                (#[trigger] order.order_items[k]).id,
            ) && contains_seq(
                spec_invoice_content(
                    order,
                    user_address,
                    vendor_address,
                    user,
                    invoice_id,
                    issued_at,
                ),
                dec_rep(order.order_items[k].compensatable_amount as nat),
            ),
        contains_seq(
            spec_invoice_content(order, user_address, vendor_address, user, invoice_id, issued_at),
            dec_rep(order.compensatable_order_amount as nat),
        ),
{
    let header = spec_invoice_header(
        order,
        user_address,
        vendor_address,
        user,
        invoice_id,
        issued_at,
    );
    let table_head = "| Item UUID | Product variant UUID | count | Compensatable amount |\n"@
        + "| --- | --- | --- | --- |\n"@;
    let rows = spec_item_rows(order.order_items);
    let overview = spec_items_overview(order.order_items);
    let separator = "\n\n---\n\nTotal compensatable amount: "@;
    let total = dec_rep(order.compensatable_order_amount as nat);
    let newline = "\n"@;
    assert forall|k: int| 0 <= k < order.order_items.len() implies contains_seq(
        spec_invoice_content(order, user_address, vendor_address, user, invoice_id, issued_at),
        (#[trigger] order.order_items[k]).id,
    ) && contains_seq(
        spec_invoice_content(order, user_address, vendor_address, user, invoice_id, issued_at),
        dec_rep(order.order_items[k].compensatable_amount as nat),
    ) by {
        lemma_item_rows_contains(order.order_items, k);
        lemma_contains_extend_left(table_head, rows, order.order_items[k].id);
        lemma_contains_extend_left(header, overview, order.order_items[k].id);
        lemma_contains_extend_right(header + overview, order.order_items[k].id, separator);
        lemma_contains_extend_right(
            header + overview + separator,
            order.order_items[k].id,
            total,
        );
        lemma_contains_extend_right(
            header + overview + separator + total,
            order.order_items[k].id,
            newline,
        );
        lemma_contains_extend_left(
            table_head,
            rows,
            dec_rep(order.order_items[k].compensatable_amount as nat),
        );
        lemma_contains_extend_left(
            header,
            overview,
            dec_rep(order.order_items[k].compensatable_amount as nat),
        );
        lemma_contains_extend_right(
            header + overview,
            dec_rep(order.order_items[k].compensatable_amount as nat),
            separator,
        );
        lemma_contains_extend_right(
            header + overview + separator,
            dec_rep(order.order_items[k].compensatable_amount as nat),
            total,
        );
        lemma_contains_extend_right(
            header + overview + separator + total,
            dec_rep(order.order_items[k].compensatable_amount as nat),
            newline,
        );
    }
    lemma_contains_here(header + overview + separator, total, newline);
}

} // verus!
