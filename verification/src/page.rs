//! Pages: the type of a page, the walk over its pointer table and the
//! metadata that its sub-headers leave behind.

use crate::errors::{view_ok, Error};
use crate::layout::Layout;
use crate::sub_header::{
    check_size, size_checked, Compression, SubHeaderKind, SubHeaderPtr, FIXED_SIZE_32,
    FIXED_SIZE_64,
};
use crate::word_reader::WordWidth;
use vstd::prelude::*;

verus! {

/// The types of page.
#[derive(Debug, Clone, Copy, PartialEq, Eq, Structural)]
pub enum PageType {
    /// Metadata alone.
    Meta,
    /// Amended metadata.
    Amd,
    /// Metadata and rows.
    Mix,
    /// Rows alone: the one type without a pointer table.
    Data,
}

impl PageType {
    /// The page type that a code stands for: 0 is `Meta`, 1024 `Amd`, 512
    /// and 640 `Mix`, 256 `Data`; every other code is invalid.
    pub open spec fn of_code(code: u16) -> Result<PageType, Error> {
        if code == 0 {
            Ok(PageType::Meta)
        } else if code == 1024 {
            Ok(PageType::Amd)
        } else if code == 512 || code == 640 {
            Ok(PageType::Mix)
        } else if code == 256 {
            Ok(PageType::Data)
        } else {
            Err(Error::InvalidPageType(code))
        }
    }

    /// The page type that a code stands for, or `InvalidPageType` for a code
    /// other than 0, 256, 512, 640 and 1024.
    pub fn from_u16(page_type: u16) -> (r: Result<PageType, Error>)
        ensures
            r == Self::of_code(page_type),
    {
        match page_type {
            0 => Ok(PageType::Meta),
            1024 => Ok(PageType::Amd),
            512 | 640 => Ok(PageType::Mix),
            256 => Ok(PageType::Data),
            t => Err(Error::InvalidPageType(t)),
        }
    }

    /// Whether pages of this type carry a pointer table: all but `Data`.
    pub open spec fn spec_has_sub_header(&self) -> bool {
        *self != PageType::Data
    }

    /// Whether pages of this type carry a pointer table: all but `Data`.
    #[verifier::when_used_as_spec(spec_has_sub_header)]
    pub fn has_sub_header(&self) -> (r: bool)
        ensures
            r == self.spec_has_sub_header(),
    {
        match *self {
            PageType::Data => false,
            _ => true,
        }
    }
}

/// The name under which the size of a `RowSize` sub-header is checked.
pub const ROW_SIZE_NAME: &'static str = "row size";

/// The name under which the size of a `ColumnSize` sub-header is checked.
pub const COLUMN_SIZE_NAME: &'static str = "column size";

/// What one page says about the dataset.
#[derive(Debug, Clone, PartialEq, Eq)]
pub struct Page {
    /// The type of the page.
    pub page_type: PageType,
    /// The block count of the page; kept, not interpreted.
    pub block_count: u16,
    /// The number of entries in the pointer table; 0 on a `Data` page, which
    /// has no table.
    pub sub_header_count: u16,
    /// The length of a row, from `RowSize`.
    pub row_len: u64,
    /// The number of rows, from `RowSize`.
    pub row_count: u64,
    /// The first partial column count, from `RowSize`.
    pub col_count_p1: u64,
    /// The second partial column count, from `RowSize`.
    pub col_count_p2: u64,
    /// The number of rows on a `Mix` page, from `RowSize`.
    pub mix_page_row_count: u64,
    /// A length that bears on compression, from `RowSize`.
    pub lcs: u16,
    /// A length that bears on compression, from `RowSize`.
    pub lcp: u16,
    /// The total column count, from `ColumnSize`.
    pub col_count: u64,
    /// Whether the last `ColumnSize` gave a total other than the sum of the
    /// two partial counts known when it was read. This is no error.
    pub col_count_mismatch: bool,
    /// The kinds of the sub-headers that were dispatched, in table order.
    pub sub_headers: Vec<SubHeaderKind>,
}

/// A page with its list of sub-headers as a sequence.
pub struct PageView {
    /// The type of the page.
    pub page_type: PageType,
    /// The block count of the page.
    pub block_count: u16,
    /// The number of entries in the pointer table.
    pub sub_header_count: u16,
    /// The length of a row.
    pub row_len: u64,
    /// The number of rows.
    pub row_count: u64,
    /// The first partial column count.
    pub col_count_p1: u64,
    /// The second partial column count.
    pub col_count_p2: u64,
    /// The number of rows on a `Mix` page.
    pub mix_page_row_count: u64,
    /// A length that bears on compression.
    pub lcs: u16,
    /// A length that bears on compression.
    pub lcp: u16,
    /// The total column count.
    pub col_count: u64,
    /// Whether the last `ColumnSize` disagreed with the partial counts.
    pub col_count_mismatch: bool,
    /// The kinds of the sub-headers that were dispatched, in table order.
    pub sub_headers: Seq<SubHeaderKind>,
}

impl View for Page {
    type V = PageView;

    open spec fn view(&self) -> PageView {
        PageView {
            page_type: self.page_type,
            block_count: self.block_count,
            sub_header_count: self.sub_header_count,
            row_len: self.row_len,
            row_count: self.row_count,
            col_count_p1: self.col_count_p1,
            col_count_p2: self.col_count_p2,
            mix_page_row_count: self.mix_page_row_count,
            lcs: self.lcs,
            lcp: self.lcp,
            col_count: self.col_count,
            col_count_mismatch: self.col_count_mismatch,
            sub_headers: self.sub_headers@,
        }
    }
}

impl PageView {
    /// A page of which only the type and the block count are known.
    pub open spec fn blank(page_type: PageType, block_count: u16) -> PageView {
        PageView {
            page_type,
            block_count,
            sub_header_count: 0,
            row_len: 0,
            row_count: 0,
            col_count_p1: 0,
            col_count_p2: 0,
            mix_page_row_count: 0,
            lcs: 0,
            lcp: 0,
            col_count: 0,
            col_count_mismatch: false,
            sub_headers: Seq::empty(),
        }
    }

    /// The page with one more sub-header on its list.
    pub open spec fn noting(self, kind: SubHeaderKind) -> PageView {
        PageView { sub_headers: self.sub_headers.push(kind), ..self }
    }
}

/// Where `lcs` lies in a `RowSize` sub-header.
pub open spec fn spec_lcs_offset(width: WordWidth) -> usize {
    match width {
        WordWidth::W32 => 354,
        WordWidth::W64 => 682,
    }
}

/// Where `lcp` lies in a `RowSize` sub-header.
pub open spec fn spec_lcp_offset(width: WordWidth) -> usize {
    match width {
        WordWidth::W32 => 378,
        WordWidth::W64 => 706,
    }
}

/// The page after a `RowSize` sub-header: the payload must have the fixed
/// size; the row length, the row count, the two partial column counts and
/// the row count of a `Mix` page are the words 5, 6, 9, 10 and 15 of it, and
/// `lcs` and `lcp` lie at fixed offsets.
pub open spec fn with_row_size(layout: Layout, page: PageView, payload: Seq<u8>) -> Result<
    PageView,
    Error,
> {
    let w = layout.spec_word_len() as int;
    let reader = layout.reader;
    let lcs_at = spec_lcs_offset(reader.width) as int;
    let lcp_at = spec_lcp_offset(reader.width) as int;
    match size_checked(
        ROW_SIZE_NAME,
        payload.len() as usize,
        layout.spec_word_len(),
        FIXED_SIZE_32,
        FIXED_SIZE_64,
    ) {
        Err(e) => Err(e),
        Ok(_) => Ok(
            PageView {
                row_len: reader.native_uint_of(payload.subrange(5 * w, 6 * w)),
                row_count: reader.native_uint_of(payload.subrange(6 * w, 7 * w)),
                col_count_p1: reader.native_uint_of(payload.subrange(9 * w, 10 * w)),
                col_count_p2: reader.native_uint_of(payload.subrange(10 * w, 11 * w)),
                mix_page_row_count: reader.native_uint_of(payload.subrange(15 * w, 16 * w)),
                lcs: reader.u16_of(payload.subrange(lcs_at, lcs_at + 2)),
                lcp: reader.u16_of(payload.subrange(lcp_at, lcp_at + 2)),
                ..page
            },
        ),
    }
}

/// The page after a `ColumnSize` sub-header: the payload must have the fixed
/// size; the total column count is word 1 of it. A total other than the sum
/// of the two partial counts is noted, and is no error.
pub open spec fn with_column_size(layout: Layout, page: PageView, payload: Seq<u8>) -> Result<
    PageView,
    Error,
> {
    let w = layout.spec_word_len() as int;
    let col_count = layout.reader.native_uint_of(payload.subrange(w, 2 * w));
    match size_checked(
        COLUMN_SIZE_NAME,
        payload.len() as usize,
        layout.spec_word_len(),
        FIXED_SIZE_32,
        FIXED_SIZE_64,
    ) {
        Err(e) => Err(e),
        Ok(_) => Ok(
            PageView {
                col_count,
                col_count_mismatch: col_count != page.col_count_p1 + page.col_count_p2,
                ..page
            },
        ),
    }
}

/// The page after the sub-header in `payload`: its signature tells its kind,
/// `RowSize` and `ColumnSize` leave their fields, the other kinds are
/// recognised and leave the metadata as it is; the kind goes on the list.
pub open spec fn apply_sub_header(layout: Layout, page: PageView, payload: Seq<u8>) -> Result<
    PageView,
    Error,
> {
    match SubHeaderKind::classify(layout.reader.width, payload) {
        Err(e) => Err(e),
        Ok(kind) => {
            let extracted = match kind {
                SubHeaderKind::RowSize => with_row_size(layout, page, payload),
                SubHeaderKind::ColumnSize => with_column_size(layout, page, payload),
                _ => Ok(page),
            };
            match extracted {
                Err(e) => Err(e),
                Ok(next) => Ok(next.noting(kind)),
            }
        },
    }
}

/// The page after one pointer: a pointer that is not live is passed over,
/// whatever it points at; a live one whose range leaves the page is
/// `Truncated`; else its payload is applied.
pub open spec fn apply_pointer(layout: Layout, page: PageView, buf: Seq<u8>, ptr: SubHeaderPtr)
    -> Result<PageView, Error> {
    if !ptr.spec_is_live() {
        Ok(page)
    } else if ptr.offset + ptr.len > buf.len() {
        Err(Error::Truncated)
    } else {
        apply_sub_header(layout, page, buf.subrange(ptr.offset as int, ptr.offset + ptr.len))
    }
}

/// Where entry `index` of the pointer table begins.
pub open spec fn entry_offset(layout: Layout, index: int) -> int {
    layout.spec_page_start() + 8 + index * layout.spec_sub_header_ptr_len()
}

/// The page after the entry of the pointer table that begins at byte `at`:
/// an entry that leaves the page is `Truncated`; else the pointer in it is
/// decoded and applied.
pub open spec fn apply_entry_at(layout: Layout, page: PageView, buf: Seq<u8>, at: int) -> Result<
    PageView,
    Error,
> {
    let end = at + layout.spec_sub_header_ptr_len();
    if end > buf.len() {
        Err(Error::Truncated)
    } else {
        match SubHeaderPtr::decode(layout, buf.subrange(at, end)) {
            Err(e) => Err(e),
            Ok(ptr) => apply_pointer(layout, page, buf, ptr),
        }
    }
}

/// The page after entry `index` of the pointer table.
pub open spec fn apply_entry(layout: Layout, page: PageView, buf: Seq<u8>, index: int) -> Result<
    PageView,
    Error,
> {
    apply_entry_at(layout, page, buf, entry_offset(layout, index))
}

/// The page after the first `n` entries of the pointer table, in order. The
/// first fault ends the walk.
pub open spec fn apply_entries(layout: Layout, page: PageView, buf: Seq<u8>, n: nat) -> Result<
    PageView,
    Error,
>
    decreases n,
{
    if n == 0 {
        Ok(page)
    } else {
        match apply_entries(layout, page, buf, (n - 1) as nat) {
            Err(e) => Err(e),
            Ok(so_far) => apply_entry(layout, so_far, buf, n - 1),
        }
    }
}

/// What the page in `buf` says: the page type and the block count stand at
/// the page start; a page with a pointer table has the number of entries
/// four bytes on and the table eight bytes on, and every entry is applied.
pub open spec fn decode_page(layout: Layout, buf: Seq<u8>) -> Result<PageView, Error> {
    let start = layout.spec_page_start() as int;
    match layout.reader.u16_at(buf, start) {
        Err(e) => Err(e),
        Ok(code) => match PageType::of_code(code) {
            Err(e) => Err(e),
            Ok(page_type) => match layout.reader.u16_at(buf, start + 2) {
                Err(e) => Err(e),
                Ok(block_count) => {
                    let blank = PageView::blank(page_type, block_count);
                    if !page_type.spec_has_sub_header() {
                        Ok(blank)
                    } else {
                        match layout.reader.u16_at(buf, start + 4) {
                            Err(e) => Err(e),
                            Ok(count) => apply_entries(
                                layout,
                                PageView { sub_header_count: count, ..blank },
                                buf,
                                count as nat,
                            ),
                        }
                    }
                },
            },
        },
    }
}

/// A fault among the first `n` entries is the fault of every longer walk.
pub proof fn lemma_fault_ends_walk(layout: Layout, page: PageView, buf: Seq<u8>, n: nat, m: nat)
    requires
        n <= m,
        apply_entries(layout, page, buf, n) is Err,
    ensures
        apply_entries(layout, page, buf, m) == apply_entries(layout, page, buf, n),
    decreases m,
{
    if n < m {
        lemma_fault_ends_walk(layout, page, buf, n, (m - 1) as nat);
    }
}

/// A pointer of length zero, and one whose payload is cut off, leave the
/// page as it was and raise no fault, wherever they point.
pub proof fn lemma_dead_pointer_is_passed_over(
    layout: Layout,
    page: PageView,
    buf: Seq<u8>,
    ptr: SubHeaderPtr,
)
    requires
        ptr.len == 0 || ptr.compression == Compression::Truncated,
    ensures
        apply_pointer(layout, page, buf, ptr) == Ok::<PageView, Error>(page),
{
}

/// A `RowSize` sub-header is taken exactly where its payload has the fixed
/// size of the word width: 480 bytes with words of four, 808 with words of
/// eight. Any other length is `SubHeaderSizeMismatch`.
pub proof fn lemma_row_size_needs_its_size(layout: Layout, page: PageView, payload: Seq<u8>)
    requires
        payload.len() <= usize::MAX,
    ensures
        with_row_size(layout, page, payload) is Ok <==> payload.len() == match layout.reader.width {
            WordWidth::W32 => 480nat,
            WordWidth::W64 => 808nat,
        },
        with_row_size(layout, page, payload) matches Err(e) ==> e
            == (Error::SubHeaderSizeMismatch {
            name: ROW_SIZE_NAME,
            len: payload.len() as usize,
            word_len: layout.spec_word_len(),
        }),
{
}

/// A `ColumnSize` sub-header of the fixed size is taken whatever total it
/// gives: a total that is not the sum of the partial counts is noted and is
/// no fault.
pub proof fn lemma_column_count_mismatch_is_no_fault(
    layout: Layout,
    page: PageView,
    payload: Seq<u8>,
)
    requires
        payload.len() == match layout.reader.width {
            WordWidth::W32 => 480nat,
            WordWidth::W64 => 808nat,
        },
    ensures
        with_column_size(layout, page, payload) matches Ok(next) && (next.col_count_mismatch <==>
            next.col_count != page.col_count_p1 + page.col_count_p2),
{
}

/// Every step of the walk puts at most one sub-header on the list.
pub proof fn lemma_entry_notes_at_most_one(layout: Layout, page: PageView, buf: Seq<u8>, at: int)
    ensures
        apply_entry_at(layout, page, buf, at) matches Ok(next) ==> page.sub_headers.len()
            <= next.sub_headers.len() <= page.sub_headers.len() + 1 && next.sub_header_count
            == page.sub_header_count && next.page_type == page.page_type,
{
}

/// The walk over `n` entries puts at most `n` sub-headers on the list.
pub proof fn lemma_walk_notes_at_most_each(layout: Layout, page: PageView, buf: Seq<u8>, n: nat)
    ensures
        apply_entries(layout, page, buf, n) matches Ok(next) ==> next.sub_headers.len()
            <= page.sub_headers.len() + n && next.sub_header_count == page.sub_header_count
            && next.page_type == page.page_type,
    decreases n,
{
    if n > 0 {
        lemma_walk_notes_at_most_each(layout, page, buf, (n - 1) as nat);
        match apply_entries(layout, page, buf, (n - 1) as nat) {
            Ok(so_far) => {
                lemma_entry_notes_at_most_one(layout, so_far, buf, entry_offset(layout, n - 1));
            },
            Err(_) => {},
        }
    }
}

/// A decoded page lists no more sub-headers than its pointer table has
/// entries, and a `Data` page lists none.
pub proof fn lemma_page_lists_at_most_its_entries(layout: Layout, buf: Seq<u8>)
    ensures
        decode_page(layout, buf) matches Ok(page) ==> page.sub_headers.len()
            <= page.sub_header_count && (page.page_type == PageType::Data
            ==> page.sub_headers.len() == 0),
{
    let start = layout.spec_page_start() as int;
    if decode_page(layout, buf) is Ok {
        let page_type = PageType::of_code(layout.reader.u16_at(buf, start)->Ok_0)->Ok_0;
        let block_count = layout.reader.u16_at(buf, start + 2)->Ok_0;
        let blank = PageView::blank(page_type, block_count);
        if page_type.spec_has_sub_header() {
            let count = layout.reader.u16_at(buf, start + 4)->Ok_0;
            lemma_walk_notes_at_most_each(
                layout,
                PageView { sub_header_count: count, ..blank },
                buf,
                count as nat,
            );
        }
    }
}

impl Page {
    /// A page of which only the type and the block count are known.
    pub fn blank(page_type: PageType, block_count: u16) -> (r: Page)
        ensures
            r@ == PageView::blank(page_type, block_count),
    {
        Page {
            page_type,
            block_count,
            sub_header_count: 0,
            row_len: 0,
            row_count: 0,
            col_count_p1: 0,
            col_count_p2: 0,
            mix_page_row_count: 0,
            lcs: 0,
            lcp: 0,
            col_count: 0,
            col_count_mismatch: false,
            sub_headers: Vec::new(),
        }
    }

    /// Decodes one page: reads its type and block count and, unless it is a
    /// `Data` page, walks its pointer table and applies every live
    /// sub-header. The first fault is returned.
    pub fn new(layout: &Layout, buf: &[u8]) -> (r: Result<Page, Error>)
        ensures
            view_ok(r) == decode_page(*layout, buf@),
    {
        let start: usize = layout.page_start();
        let code = match layout.reader.read_u16_at(buf, start) {
            Ok(v) => v,
            Err(e) => {
                return Err(e);
            },
        };
        let page_type = match PageType::from_u16(code) {
            Ok(t) => t,
            Err(e) => {
                return Err(e);
            },
        };
        let block_count = match layout.reader.read_u16_at(buf, start + 2) {
            Ok(v) => v,
            Err(e) => {
                return Err(e);
            },
        };
        let mut page = Page::blank(page_type, block_count);
        if !page.page_type.has_sub_header() {
            return Ok(page);
        }
        let count = match layout.reader.read_u16_at(buf, start + 4) {
            Ok(v) => v,
            Err(e) => {
                return Err(e);
            },
        };
        page.sub_header_count = count;
        let ghost first = page@;
        let ptr_len: usize = layout.sub_header_ptr_len();
        let mut i: u16 = 0;
        while i < count
            invariant
                i <= count,
                start == layout.spec_page_start(),
                ptr_len == layout.spec_sub_header_ptr_len(),
                apply_entries(*layout, first, buf@, i as nat) == Ok::<PageView, Error>(page@),
                decode_page(*layout, buf@) == apply_entries(*layout, first, buf@, count as nat),
            decreases count - i,
        {
            assert(i * ptr_len <= 65535 * 24) by (nonlinear_arith)
                requires
                    i <= 65535,
                    ptr_len <= 24,
            ;
            let at: usize = start + 8 + (i as usize) * ptr_len;
            assert(at == entry_offset(*layout, i as int));
            match page.process_entry(layout, buf, at) {
                Ok(()) => {},
                Err(e) => {
                    proof {
                        lemma_fault_ends_walk(*layout, first, buf@, (i + 1) as nat, count as nat);
                    }
                    return Err(e);
                },
            }
            i += 1;
        }
        Ok(page)
    }

    /// Applies the entry of the pointer table that begins at byte `at`:
    /// decodes the pointer in it and, where the pointer is live, applies the
    /// sub-header that it points at. On a fault the page stays as it was.
    pub fn process_entry(&mut self, layout: &Layout, buf: &[u8], at: usize) -> (r: Result<(), Error>)
        ensures
            match r {
                Ok(_) => apply_entry_at(*layout, old(self)@, buf@, at as int) == Ok::<
                    PageView,
                    Error,
                >(final(self)@),
                Err(e) => apply_entry_at(*layout, old(self)@, buf@, at as int) == Err::<
                    PageView,
                    Error,
                >(e) && *final(self) == *old(self),
            },
    {
        let ptr_len: usize = layout.sub_header_ptr_len();
        if at > buf.len() || buf.len() - at < ptr_len {
            return Err(Error::Truncated);
        }
        let ptr = match SubHeaderPtr::new(layout, &buf[at..at + ptr_len]) {
            Ok(p) => p,
            Err(e) => {
                return Err(e);
            },
        };
        if !ptr.is_live() {
            return Ok(());
        }
        let len: u64 = buf.len() as u64;
        if ptr.offset > len || len - ptr.offset < ptr.len {
            return Err(Error::Truncated);
        }
        let from: usize = ptr.offset as usize;
        let to: usize = (ptr.offset + ptr.len) as usize;
        self.process_sub_header(layout, &buf[from..to])
    }

    /// Applies one sub-header: tells its kind from its signature, lets a
    /// `RowSize` or a `ColumnSize` leave its fields, and puts the kind on the
    /// list. On a fault the page stays as it was.
    pub fn process_sub_header(&mut self, layout: &Layout, buf: &[u8]) -> (r: Result<(), Error>)
        ensures
            match r {
                Ok(_) => apply_sub_header(*layout, old(self)@, buf@) == Ok::<PageView, Error>(
                    final(self)@,
                ),
                Err(e) => apply_sub_header(*layout, old(self)@, buf@) == Err::<PageView, Error>(e)
                    && *final(self) == *old(self),
            },
    {
        let kind = match SubHeaderKind::of_payload(layout.reader.width, buf) {
            Ok(k) => k,
            Err(e) => {
                return Err(e);
            },
        };
        let done = match kind {
            SubHeaderKind::RowSize => self.process_row_size(layout, buf),
            SubHeaderKind::ColumnSize => self.process_column_size(layout, buf),
            SubHeaderKind::Counts => self.process_counts(layout, buf),
            SubHeaderKind::ColumnText => self.process_column_text(layout, buf),
            SubHeaderKind::ColumnName => self.process_column_name(layout, buf),
            SubHeaderKind::ColumnAttributes => self.process_column_attributes(layout, buf),
            SubHeaderKind::FormatAndLabel => self.process_format_and_label(layout, buf),
            SubHeaderKind::ColumnList => self.process_column_list(layout, buf),
        };
        match done {
            Ok(()) => {
                self.sub_headers.push(kind);
                Ok(())
            },
            Err(e) => Err(e),
        }
    }

    /// Takes the fields of a `RowSize` sub-header. On a fault the page stays
    /// as it was.
    pub fn process_row_size(&mut self, layout: &Layout, buf: &[u8]) -> (r: Result<(), Error>)
        ensures
            match r {
                Ok(_) => with_row_size(*layout, old(self)@, buf@) == Ok::<PageView, Error>(
                    final(self)@,
                ),
                Err(e) => with_row_size(*layout, old(self)@, buf@) == Err::<PageView, Error>(e)
                    && *final(self) == *old(self),
            },
    {
        let w: usize = layout.word_len();
        match check_size(ROW_SIZE_NAME, buf, w, FIXED_SIZE_32, FIXED_SIZE_64) {
            Ok(()) => {},
            Err(e) => {
                return Err(e);
            },
        }
        let reader = layout.reader;
        let (lcs_at, lcp_at): (usize, usize) = match reader.width {
            WordWidth::W32 => (354, 378),
            WordWidth::W64 => (682, 706),
        };
        let row_len = match reader.read_native_uint_at(buf, 5 * w) {
            Ok(v) => v,
            Err(e) => {
                return Err(e);
            },
        };
        let row_count = match reader.read_native_uint_at(buf, 6 * w) {
            Ok(v) => v,
            Err(e) => {
                return Err(e);
            },
        };
        let col_count_p1 = match reader.read_native_uint_at(buf, 9 * w) {
            Ok(v) => v,
            Err(e) => {
                return Err(e);
            },
        };
        let col_count_p2 = match reader.read_native_uint_at(buf, 10 * w) {
            Ok(v) => v,
            Err(e) => {
                return Err(e);
            },
        };
        let mix_page_row_count = match reader.read_native_uint_at(buf, 15 * w) {
            Ok(v) => v,
            Err(e) => {
                return Err(e);
            },
        };
        let lcs = match reader.read_u16_at(buf, lcs_at) {
            Ok(v) => v,
            Err(e) => {
                return Err(e);
            },
        };
        let lcp = match reader.read_u16_at(buf, lcp_at) {
            Ok(v) => v,
            Err(e) => {
                return Err(e);
            },
        };
        self.row_len = row_len;
        self.row_count = row_count;
        self.col_count_p1 = col_count_p1;
        self.col_count_p2 = col_count_p2;
        self.mix_page_row_count = mix_page_row_count;
        self.lcs = lcs;
        self.lcp = lcp;
        Ok(())
    }

    /// Takes the total column count of a `ColumnSize` sub-header and notes
    /// whether it is the sum of the two partial counts. On a fault the page
    /// stays as it was.
    pub fn process_column_size(&mut self, layout: &Layout, buf: &[u8]) -> (r: Result<(), Error>)
        ensures
            match r {
                Ok(_) => with_column_size(*layout, old(self)@, buf@) == Ok::<PageView, Error>(
                    final(self)@,
                ),
                Err(e) => with_column_size(*layout, old(self)@, buf@) == Err::<PageView, Error>(e)
                    && *final(self) == *old(self),
            },
    {
        let w: usize = layout.word_len();
        match check_size(COLUMN_SIZE_NAME, buf, w, FIXED_SIZE_32, FIXED_SIZE_64) {
            Ok(()) => {},
            Err(e) => {
                return Err(e);
            },
        }
        match layout.reader.read_native_uint_at(buf, w) {
            Ok(col_count) => {
                self.col_count = col_count;
                self.col_count_mismatch = match self.col_count_p1.checked_add(self.col_count_p2) {
                    Some(sum) => col_count != sum,
                    None => true,
                };
                Ok(())
            },
            Err(e) => Err(e),
        }
    }

    /// A `Counts` sub-header is recognised and not decoded.
    pub fn process_counts(&mut self, _layout: &Layout, _buf: &[u8]) -> (r: Result<(), Error>)
        ensures
            r == Ok::<(), Error>(()),
            *final(self) == *old(self),
    {
        Ok(())
    }

    /// A `ColumnText` sub-header is recognised; its fields are left for an
    /// extension to take.
    pub fn process_column_text(&mut self, _layout: &Layout, _buf: &[u8]) -> (r: Result<(), Error>)
        ensures
            r == Ok::<(), Error>(()),
            *final(self) == *old(self),
    {
        Ok(())
    }

    /// A `ColumnName` sub-header is recognised; its fields are left for an
    /// extension to take.
    pub fn process_column_name(&mut self, _layout: &Layout, _buf: &[u8]) -> (r: Result<(), Error>)
        ensures
            r == Ok::<(), Error>(()),
            *final(self) == *old(self),
    {
        Ok(())
    }

    /// A `ColumnAttributes` sub-header is recognised; its fields are left
    /// for an extension to take.
    pub fn process_column_attributes(&mut self, _layout: &Layout, _buf: &[u8]) -> (r: Result<
        (),
        Error,
    >)
        ensures
            r == Ok::<(), Error>(()),
            *final(self) == *old(self),
    {
        Ok(())
    }

    /// A `FormatAndLabel` sub-header is recognised; its fields are left for
    /// an extension to take.
    pub fn process_format_and_label(&mut self, _layout: &Layout, _buf: &[u8]) -> (r: Result<
        (),
        Error,
    >)
        ensures
            r == Ok::<(), Error>(()),
            *final(self) == *old(self),
    {
        Ok(())
    }

    /// A `ColumnList` sub-header is recognised; its fields are left for an
    /// extension to take.
    pub fn process_column_list(&mut self, _layout: &Layout, _buf: &[u8]) -> (r: Result<(), Error>)
        ensures
            r == Ok::<(), Error>(()),
            *final(self) == *old(self),
    {
        Ok(())
    }
}

} // verus!
