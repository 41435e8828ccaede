//! The descriptor builder: appends items to a byte buffer whose contents are
//! always the encoding of the items applied so far, in call order.

use vstd::prelude::*;
use crate::tables::{lemma_usage_size, Usage, UsagePage};

verus! {

/// Tag of a Usage Page item with a one-byte payload.
pub const USAGE_PAGE_TAG: u8 = 0x05;

/// Tag of a Usage item with a one-byte payload.
pub const USAGE_TAG_1: u8 = 0x09;

/// Tag of a Usage item with a two-byte payload.
pub const USAGE_TAG_2: u8 = 0x0a;

/// Tag of a Report Size item with a one-byte payload.
pub const REPORT_SIZE_TAG: u8 = 0x75;

/// Tag of a Report Count item with a one-byte payload.
pub const REPORT_COUNT_TAG: u8 = 0x95;

/// One step of descriptor construction, as the builder records it.
pub enum DescriptorItem {
    UsagePage(UsagePage),
    Usage(Usage),
    Padding(u8),
}

/// The tag byte of a Usage item for `u`, chosen by the payload size.
pub open spec fn usage_tag(u: Usage) -> u8 {
    if u.byte_len() == 2 {
        USAGE_TAG_2
    } else {
        USAGE_TAG_1
    }
}

/// The bytes that one item contributes to the descriptor.
pub open spec fn item_bytes(item: DescriptorItem) -> Seq<u8> {
    match item {
        DescriptorItem::UsagePage(p) => seq![USAGE_PAGE_TAG, p.code()],
        DescriptorItem::Usage(u) => seq![usage_tag(u)] + u.bytes(),
        DescriptorItem::Padding(count) => seq![REPORT_SIZE_TAG, 0x01u8, REPORT_COUNT_TAG, count],
    }
}

/// The number of bytes that one item contributes, known from the item alone.
pub open spec fn item_len(item: DescriptorItem) -> nat {
    match item {
        DescriptorItem::UsagePage(_) => 2,
        DescriptorItem::Usage(u) => 1 + u.byte_len(),
        DescriptorItem::Padding(_) => 4,
    }
}

/// The encoding of a sequence of items: their bytes, one after another.
pub open spec fn items_bytes(items: Seq<DescriptorItem>) -> Seq<u8>
    decreases items.len(),
{
    if items.len() == 0 {
        Seq::empty()
    } else {
        items_bytes(items.drop_last()) + item_bytes(items.last())
    }
}

/// The sum of the per-item byte counts of a sequence of items.
pub open spec fn items_len(items: Seq<DescriptorItem>) -> nat
    decreases items.len(),
{
    if items.len() == 0 {
        0
    } else {
        items_len(items.drop_last()) + item_len(items.last())
    }
}

/// Copies `a` into a new buffer of length `m`, whose remaining bytes are zero.
pub fn extend(a: Vec<u8>, m: usize) -> (r: Vec<u8>)
    requires
        a.len() <= m,
    ensures
        r@ == a@ + Seq::new((m - a.len()) as nat, |i: int| 0u8),
{
    let n = a.len();
    let mut new: Vec<u8> = vec![0u8; m];
    let mut i: usize = 0;
    while i < n
        invariant
            n == a.len(),
            n <= m,
            i <= n,
            new.len() == m,
            forall|j: int| 0 <= j < i ==> new@[j] == a@[j],
            forall|j: int| n <= j < m ==> new@[j] == 0u8,
        decreases n - i,
    {
        new[i] = a[i];
        i += 1;
    }
    assert(new@ =~= a@ + Seq::new((m - n) as nat, |i: int| 0u8));
    new
}

/// A descriptor under construction. Its bytes are at all times the encoding
/// of the items applied to it since `new`, in the order they were applied.
pub struct HIDBuilder {
    hid_bytes: Vec<u8>,
    items: Ghost<Seq<DescriptorItem>>,
}

impl View for HIDBuilder {
    type V = Seq<u8>;

    closed spec fn view(&self) -> Seq<u8> {
        self.hid_bytes@
    }
}

impl HIDBuilder {
    /// The items applied so far, in call order.
    pub closed spec fn items(self) -> Seq<DescriptorItem> {
        self.items@
    }

    #[verifier::type_invariant]
    spec fn inv(self) -> bool {
        self.hid_bytes@ == items_bytes(self.items@)
    }

    /// A builder holding no items and no bytes.
    pub fn new() -> (r: HIDBuilder)
        ensures
            r@ == Seq::<u8>::empty(),
            r.items() == Seq::<DescriptorItem>::empty(),
    {
        HIDBuilder { hid_bytes: Vec::new(), items: Ghost(Seq::empty()) }
    }

    /// Appends a Usage Page item: the tag, then the page's code.
    pub fn usage_page(self, page: UsagePage) -> (r: HIDBuilder)
        requires
            self@.len() + 2 <= usize::MAX,
        ensures
            r.items() == self.items().push(DescriptorItem::UsagePage(page)),
            r@ == self@ + seq![USAGE_PAGE_TAG, page.code()],
    {
        proof {
            use_type_invariant(&self);
        }
        let n = self.hid_bytes.len();
        let mut new_bytes = extend(self.hid_bytes, n + 2);
        new_bytes[n] = USAGE_PAGE_TAG;
        new_bytes[n + 1] = page.value();
        let ghost items = self.items@.push(DescriptorItem::UsagePage(page));
        assert(new_bytes@ =~= items_bytes(self.items@) + item_bytes(items.last()));
        assert(items.drop_last() =~= self.items@);
        HIDBuilder { hid_bytes: new_bytes, items: Ghost(items) }
    }

    /// Appends a Usage item: the tag that fits the size of the usage value,
    /// then the value itself.
    pub fn usage(self, usage: Usage) -> (r: HIDBuilder)
        requires
            self@.len() + 1 + usage.byte_len() <= usize::MAX,
        ensures
            r.items() == self.items().push(DescriptorItem::Usage(usage)),
            r@ == self@ + seq![usage_tag(usage)] + usage.bytes(),
    {
        proof {
            use_type_invariant(&self);
        }
        let n = self.hid_bytes.len();
        let size = usage.size();
        let mut new_bytes = extend(self.hid_bytes, n + 1 + size);
        if size == 2 {
            new_bytes[n] = USAGE_TAG_2;
        } else {
            new_bytes[n] = USAGE_TAG_1;
        }
        let v = usage.value();
        new_bytes[n + 1] = v[0];
        if v.len() == 2 {
            new_bytes[n + 2] = v[1];
        }
        let ghost items = self.items@.push(DescriptorItem::Usage(usage));
        assert(new_bytes@ =~= items_bytes(self.items@) + item_bytes(items.last()));
        assert(items.drop_last() =~= self.items@);
        HIDBuilder { hid_bytes: new_bytes, items: Ghost(items) }
    }

    /// Appends padding: a Report Size item of one bit, then a Report Count
    /// item of `count`. Any count is accepted.
    pub fn padding(self, count: u8) -> (r: HIDBuilder)
        requires
            self@.len() + 4 <= usize::MAX,
        ensures
            r.items() == self.items().push(DescriptorItem::Padding(count)),
            r@ == self@ + seq![REPORT_SIZE_TAG, 0x01u8, REPORT_COUNT_TAG, count],
    {
        proof {
            use_type_invariant(&self);
        }
        let n = self.hid_bytes.len();
        let mut new_bytes = extend(self.hid_bytes, n + 4);
        new_bytes[n] = REPORT_SIZE_TAG;
        new_bytes[n + 1] = 0x01;
        new_bytes[n + 2] = REPORT_COUNT_TAG;
        new_bytes[n + 3] = count;
        let ghost items = self.items@.push(DescriptorItem::Padding(count));
        assert(new_bytes@ =~= items_bytes(self.items@) + item_bytes(items.last()));
        assert(items.drop_last() =~= self.items@);
        HIDBuilder { hid_bytes: new_bytes, items: Ghost(items) }
    }

    /// Finishes construction and hands out the descriptor bytes. The builder
    /// is consumed, so nothing can append to the returned bytes through it.
    pub fn as_bytes(self) -> (r: Vec<u8>)
        ensures
            r@ == self@,
            r@ == items_bytes(self.items()),
            r@.len() == items_len(self.items()),
    {
        proof {
            use_type_invariant(&self);
            lemma_items_len(self.items@);
        }
        self.hid_bytes
    }
}

/// The length of a descriptor is the sum of what its items contribute: two
/// bytes for a usage page, one plus the value size for a usage, and four for
/// padding.
pub proof fn lemma_items_len(items: Seq<DescriptorItem>)
    ensures
        items_bytes(items).len() == items_len(items),
    decreases items.len(),
{
    if items.len() > 0 {
        lemma_items_len(items.drop_last());
        if let DescriptorItem::Usage(u) = items.last() {
            lemma_usage_size(u);
        }
    }
}

/// Items come out in the order the calls were made. Appending a usage page
/// and then a usage gives the page's bytes before the usage's; the other
/// order gives them the other way round; and the two descriptors differ.
pub proof fn lemma_call_order_kept(items: Seq<DescriptorItem>, page: UsagePage, usage: Usage)
    ensures
        ({
            let page_item = DescriptorItem::UsagePage(page);
            let usage_item = DescriptorItem::Usage(usage);
            let page_first = items_bytes(items.push(page_item).push(usage_item));
            let usage_first = items_bytes(items.push(usage_item).push(page_item));
            &&& page_first == items_bytes(items) + item_bytes(page_item) + item_bytes(usage_item)
            &&& usage_first == items_bytes(items) + item_bytes(usage_item) + item_bytes(page_item)
            &&& page_first != usage_first
        }),
{
    let page_item = DescriptorItem::UsagePage(page);
    let usage_item = DescriptorItem::Usage(usage);
    let page_first = items.push(page_item).push(usage_item);
    let usage_first = items.push(usage_item).push(page_item);
    assert(page_first.drop_last() =~= items.push(page_item));
    assert(items.push(page_item).drop_last() =~= items);
    assert(usage_first.drop_last() =~= items.push(usage_item));
    assert(items.push(usage_item).drop_last() =~= items);
    let prefix = items_bytes(items);
    let p = seq![USAGE_PAGE_TAG, page.code()];
    let u = seq![usage_tag(usage)] + usage.bytes();
    assert(items_bytes(items.push(page_item)) == prefix + p);
    assert(items_bytes(page_first) == prefix + p + u);
    assert(items_bytes(items.push(usage_item)) == prefix + u);
    assert(items_bytes(usage_first) == prefix + u + p);
    let n = prefix.len() as int;
    assert((prefix + p + u)[n] == USAGE_PAGE_TAG);
    assert((prefix + u + p)[n] == usage_tag(usage));
}

} // verus!
