use byteorder::{BigEndian, ByteOrder, LittleEndian};
use sas7bdat::page::{COLUMN_SIZE_NAME, ROW_SIZE_NAME};
use sas7bdat::sub_header::{FIXED_SIZE_32, FIXED_SIZE_64};
use sas7bdat::{
    check_size, Compression, Endianness, Error, Layout, Page, PageType, SubHeaderKind,
    SubHeaderPtr, WordReader, WordWidth,
};

fn layout(w64: bool, little: bool, shifted: bool) -> Layout {
    Layout { reader: WordReader::from_bool(little, w64), shifted }
}

fn layouts() -> Vec<Layout> {
    let mut all = Vec::new();
    for w64 in [false, true] {
        for little in [false, true] {
            for shifted in [false, true] {
                all.push(layout(w64, little, shifted));
            }
        }
    }
    all
}

fn put_u16(l: &Layout, buf: &mut [u8], at: usize, v: u16) {
    match l.reader.order {
        Endianness::Little => LittleEndian::write_u16(&mut buf[at..at + 2], v),
        Endianness::Big => BigEndian::write_u16(&mut buf[at..at + 2], v),
    }
}

fn put_word(l: &Layout, buf: &mut [u8], at: usize, v: u64) {
    match (l.reader.order, l.reader.width) {
        (Endianness::Little, WordWidth::W64) => LittleEndian::write_u64(&mut buf[at..at + 8], v),
        (Endianness::Big, WordWidth::W64) => BigEndian::write_u64(&mut buf[at..at + 8], v),
        (Endianness::Little, WordWidth::W32) => {
            LittleEndian::write_u32(&mut buf[at..at + 4], v as u32)
        }
        (Endianness::Big, WordWidth::W32) => BigEndian::write_u32(&mut buf[at..at + 4], v as u32),
    }
}

fn fixed_size(l: &Layout) -> usize {
    match l.reader.width {
        WordWidth::W32 => 480,
        WordWidth::W64 => 808,
    }
}

fn signature_of(l: &Layout, short: [u8; 4], long: [u8; 8]) -> Vec<u8> {
    match l.reader.width {
        WordWidth::W32 => short.to_vec(),
        WordWidth::W64 => long.to_vec(),
    }
}

fn row_size_payload(l: &Layout, fields: [u64; 5], lcs: u16, lcp: u16) -> Vec<u8> {
    let w = l.word_len();
    let mut p = vec![0u8; fixed_size(l)];
    let sig = signature_of(l, [0xf7; 4], [0xf7, 0xf7, 0xf7, 0xf7, 0, 0, 0, 0]);
    p[..w].copy_from_slice(&sig);
    put_word(l, &mut p, 5 * w, fields[0]);
    put_word(l, &mut p, 6 * w, fields[1]);
    put_word(l, &mut p, 9 * w, fields[2]);
    put_word(l, &mut p, 10 * w, fields[3]);
    put_word(l, &mut p, 15 * w, fields[4]);
    let (lcs_at, lcp_at) = if w == 4 { (354, 378) } else { (682, 706) };
    put_u16(l, &mut p, lcs_at, lcs);
    put_u16(l, &mut p, lcp_at, lcp);
    p
}

fn column_size_payload(l: &Layout, total: u64) -> Vec<u8> {
    let w = l.word_len();
    let mut p = vec![0u8; fixed_size(l)];
    let sig = signature_of(l, [0xf6; 4], [0, 0, 0, 0, 0xf6, 0xf6, 0xf6, 0xf6]);
    p[..w].copy_from_slice(&sig);
    put_word(l, &mut p, w, total);
    p
}

fn entry(l: &Layout, offset: u64, len: u64, compression: u8, typ: u8) -> Vec<u8> {
    let w = l.word_len();
    let mut e = vec![0u8; l.sub_header_ptr_len()];
    put_word(l, &mut e, 0, offset);
    put_word(l, &mut e, w, len);
    e[2 * w] = compression;
    e[2 * w + 1] = typ;
    e
}

/// A page with the given type code and block count, a pointer table with one
/// live entry for each payload, and the payloads behind the table.
fn page_with(l: &Layout, code: u16, block_count: u16, payloads: &[Vec<u8>]) -> Vec<u8> {
    let start = l.page_start();
    let table = start + 8;
    let mut at = table + payloads.len() * l.sub_header_ptr_len();
    let mut page = vec![0u8; at];
    put_u16(l, &mut page, start, code);
    put_u16(l, &mut page, start + 2, block_count);
    put_u16(l, &mut page, start + 4, payloads.len() as u16);
    for (i, payload) in payloads.iter().enumerate() {
        let e = entry(l, at as u64, payload.len() as u64, 0, 0);
        let slot = table + i * l.sub_header_ptr_len();
        page[slot..slot + e.len()].copy_from_slice(&e);
        page.extend_from_slice(payload);
        at += payload.len();
    }
    page
}

/// A page whose pointer table holds exactly the given entries.
fn page_with_entries(l: &Layout, code: u16, entries: &[Vec<u8>], len: usize) -> Vec<u8> {
    let start = l.page_start();
    let mut page = vec![0u8; len];
    put_u16(l, &mut page, start, code);
    put_u16(l, &mut page, start + 4, entries.len() as u16);
    for (i, e) in entries.iter().enumerate() {
        let slot = start + 8 + i * l.sub_header_ptr_len();
        page[slot..slot + e.len()].copy_from_slice(e);
    }
    page
}

#[test]
fn page_type_codes() {
    assert_eq!(PageType::from_u16(0), Ok(PageType::Meta));
    assert_eq!(PageType::from_u16(1024), Ok(PageType::Amd));
    assert_eq!(PageType::from_u16(512), Ok(PageType::Mix));
    assert_eq!(PageType::from_u16(640), Ok(PageType::Mix));
    assert_eq!(PageType::from_u16(256), Ok(PageType::Data));
    for code in 0..=u16::MAX {
        if ![0, 1024, 512, 640, 256].contains(&code) {
            assert_eq!(PageType::from_u16(code), Err(Error::InvalidPageType(code)));
        }
    }
}

#[test]
fn only_data_pages_lack_sub_headers() {
    assert!(PageType::Meta.has_sub_header());
    assert!(PageType::Amd.has_sub_header());
    assert!(PageType::Mix.has_sub_header());
    assert!(!PageType::Data.has_sub_header());
}

#[test]
fn compression_codes() {
    assert_eq!(Compression::from_u8(0), Ok(Compression::Uncompressed));
    assert_eq!(Compression::from_u8(1), Ok(Compression::Truncated));
    assert_eq!(Compression::from_u8(4), Ok(Compression::RLE));
    for code in 0..=255u8 {
        if ![0, 1, 4].contains(&code) {
            assert_eq!(Compression::from_u8(code), Err(Error::InvalidCompressionCode(code)));
        }
    }
    assert!(!Compression::Uncompressed.is_truncated());
    assert!(Compression::Truncated.is_truncated());
    assert!(!Compression::RLE.is_truncated());
}

#[test]
fn pointer_entries_are_decoded() {
    for l in layouts() {
        let e = entry(&l, 0x0102_0304, 480, 4, 7);
        assert_eq!(
            SubHeaderPtr::new(&l, &e),
            Ok(SubHeaderPtr {
                offset: 0x0102_0304,
                len: 480,
                compression: Compression::RLE,
                typ: 7
            })
        );
        let w = l.word_len();
        assert_eq!(SubHeaderPtr::new(&l, &e[..2 * w + 1]), Err(Error::Truncated));
        assert!(SubHeaderPtr::new(&l, &e[..2 * w + 2]).is_ok());
        let bad = entry(&l, 0, 0, 2, 0);
        assert_eq!(SubHeaderPtr::new(&l, &bad), Err(Error::InvalidCompressionCode(2)));
    }
    let l64 = layout(true, false, false);
    let e = entry(&l64, 0xffff_ffff_0000_0001, 0x1_0000_0000, 0, 0);
    let ptr = SubHeaderPtr::new(&l64, &e).unwrap();
    assert_eq!(ptr.offset, 0xffff_ffff_0000_0001);
    assert_eq!(ptr.len, 0x1_0000_0000);
}

#[test]
fn liveness_of_pointers() {
    let live = SubHeaderPtr { offset: 0, len: 1, compression: Compression::Uncompressed, typ: 0 };
    assert!(live.is_live());
    assert!(SubHeaderPtr { compression: Compression::RLE, ..live }.is_live());
    assert!(!SubHeaderPtr { len: 0, ..live }.is_live());
    assert!(!SubHeaderPtr { compression: Compression::Truncated, ..live }.is_live());
    assert!(!SubHeaderPtr { len: 0, compression: Compression::Truncated, ..live }.is_live());
}

#[test]
fn every_short_signature() {
    let table: [([u8; 4], SubHeaderKind); 14] = [
        ([0xf7, 0xf7, 0xf7, 0xf7], SubHeaderKind::RowSize),
        ([0xf6, 0xf6, 0xf6, 0xf6], SubHeaderKind::ColumnSize),
        ([0x00, 0xfc, 0xff, 0xff], SubHeaderKind::Counts),
        ([0xff, 0xff, 0xfc, 0x00], SubHeaderKind::Counts),
        ([0xfd, 0xff, 0xff, 0xff], SubHeaderKind::ColumnText),
        ([0xff, 0xff, 0xff, 0xfd], SubHeaderKind::ColumnText),
        ([0xff, 0xff, 0xff, 0xff], SubHeaderKind::ColumnName),
        ([0xfc, 0xff, 0xff, 0xff], SubHeaderKind::ColumnAttributes),
        ([0xff, 0xff, 0xff, 0xfc], SubHeaderKind::ColumnAttributes),
        ([0xfe, 0xfb, 0xff, 0xff], SubHeaderKind::FormatAndLabel),
        ([0xff, 0xff, 0xfb, 0xfe], SubHeaderKind::FormatAndLabel),
        ([0xfe, 0xff, 0xff, 0xff], SubHeaderKind::ColumnList),
        ([0xff, 0xff, 0xff, 0xfe], SubHeaderKind::ColumnList),
        ([0xf7, 0xf7, 0xf7, 0xf7], SubHeaderKind::RowSize),
    ];
    for (bytes, kind) in table {
        assert_eq!(SubHeaderKind::of_payload(WordWidth::W32, &bytes), Ok(kind));
        // bytes behind the signature do not matter
        let mut longer = bytes.to_vec();
        longer.extend_from_slice(&[0x12, 0x34, 0x56, 0x78, 0x9a]);
        assert_eq!(SubHeaderKind::of_payload(WordWidth::W32, &longer), Ok(kind));
        let number = BigEndian::read_u32(&bytes) as u64;
        assert_eq!(SubHeaderKind::read_signature(WordWidth::W32, &bytes), Ok(number));
        assert_eq!(SubHeaderKind::from_signature(WordWidth::W32, number), Some(kind));
    }
}

#[test]
fn every_long_signature() {
    let table: [([u8; 8], SubHeaderKind); 15] = [
        ([0x00, 0x00, 0x00, 0x00, 0xf7, 0xf7, 0xf7, 0xf7], SubHeaderKind::RowSize),
        ([0xf7, 0xf7, 0xf7, 0xf7, 0x00, 0x00, 0x00, 0x00], SubHeaderKind::RowSize),
        ([0xf7, 0xf7, 0xf7, 0xf7, 0xff, 0xff, 0xfb, 0xfe], SubHeaderKind::RowSize),
        ([0x00, 0x00, 0x00, 0x00, 0xf6, 0xf6, 0xf6, 0xf6], SubHeaderKind::ColumnSize),
        ([0xf6, 0xf6, 0xf6, 0xf6, 0x00, 0x00, 0x00, 0x00], SubHeaderKind::ColumnSize),
        ([0xf6, 0xf6, 0xf6, 0xf6, 0xff, 0xff, 0xfb, 0xfe], SubHeaderKind::ColumnSize),
        ([0x00, 0xfc, 0xff, 0xff, 0xff, 0xff, 0xff, 0xff], SubHeaderKind::Counts),
        ([0xff, 0xff, 0xff, 0xff, 0xff, 0xff, 0xfc, 0x00], SubHeaderKind::Counts),
        ([0xfd, 0xff, 0xff, 0xff, 0xff, 0xff, 0xff, 0xff], SubHeaderKind::ColumnText),
        ([0xff, 0xff, 0xff, 0xff, 0xff, 0xff, 0xff, 0xfd], SubHeaderKind::ColumnText),
        ([0xff, 0xff, 0xff, 0xff, 0xff, 0xff, 0xff, 0xff], SubHeaderKind::ColumnName),
        ([0xfc, 0xff, 0xff, 0xff, 0xff, 0xff, 0xff, 0xff], SubHeaderKind::ColumnAttributes),
        ([0xff, 0xff, 0xff, 0xff, 0xff, 0xff, 0xff, 0xfc], SubHeaderKind::ColumnAttributes),
        ([0xfe, 0xfb, 0xff, 0xff, 0xff, 0xff, 0xff, 0xff], SubHeaderKind::FormatAndLabel),
        ([0xff, 0xff, 0xff, 0xff, 0xff, 0xff, 0xfb, 0xfe], SubHeaderKind::FormatAndLabel),
    ];
    for (bytes, kind) in table {
        assert_eq!(SubHeaderKind::of_payload(WordWidth::W64, &bytes), Ok(kind));
        let number = BigEndian::read_u64(&bytes);
        assert_eq!(SubHeaderKind::read_signature(WordWidth::W64, &bytes), Ok(number));
        assert_eq!(SubHeaderKind::from_signature(WordWidth::W64, number), Some(kind));
    }
    for bytes in [
        [0xfeu8, 0xff, 0xff, 0xff, 0xff, 0xff, 0xff, 0xff],
        [0xff, 0xff, 0xff, 0xff, 0xff, 0xff, 0xff, 0xfe],
    ] {
        assert_eq!(
            SubHeaderKind::of_payload(WordWidth::W64, &bytes),
            Ok(SubHeaderKind::ColumnList)
        );
    }
}

#[test]
fn signatures_of_the_other_width_do_not_match() {
    // the long forms that do not begin with a short form
    assert_eq!(
        SubHeaderKind::of_payload(WordWidth::W32, &[0, 0, 0, 0, 0xf7, 0xf7, 0xf7, 0xf7]),
        Err(Error::UnrecognizedSubHeaderSignature { signature: 0, word_len: 4 })
    );
    // a short form followed by other bytes is no long form
    assert_eq!(
        SubHeaderKind::of_payload(WordWidth::W64, &[0xf7, 0xf7, 0xf7, 0xf7, 1, 2, 3, 4]),
        Err(Error::UnrecognizedSubHeaderSignature {
            signature: 0xf7f7_f7f7_0102_0304,
            word_len: 8
        })
    );
    assert_eq!(
        SubHeaderKind::of_payload(WordWidth::W64, &[0xfd, 0xff, 0xff, 0xff, 0, 0, 0, 0]),
        Err(Error::UnrecognizedSubHeaderSignature {
            signature: 0xfdff_ffff_0000_0000,
            word_len: 8
        })
    );
}

#[test]
fn unknown_and_short_signatures() {
    assert_eq!(
        SubHeaderKind::of_payload(WordWidth::W32, &[0xde, 0xad, 0xbe, 0xef]),
        Err(Error::UnrecognizedSubHeaderSignature { signature: 0xdead_beef, word_len: 4 })
    );
    assert_eq!(SubHeaderKind::from_signature(WordWidth::W32, 0xdead_beef), None);
    assert_eq!(SubHeaderKind::from_signature(WordWidth::W32, 0xf7f7_f7f7_0000_0000), None);
    assert_eq!(SubHeaderKind::of_payload(WordWidth::W32, &[0xf7, 0xf7, 0xf7]), Err(Error::Truncated));
    assert_eq!(
        SubHeaderKind::of_payload(WordWidth::W64, &[0xff, 0xff, 0xff, 0xff, 0xff, 0xff, 0xff]),
        Err(Error::Truncated)
    );
    assert_eq!(SubHeaderKind::read_signature(WordWidth::W64, &[]), Err(Error::Truncated));
}

#[test]
fn the_signature_does_not_follow_the_byte_order_of_the_file() {
    for l in layouts() {
        let payload = row_size_payload(&l, [1, 2, 3, 4, 5], 6, 7);
        assert_eq!(
            SubHeaderKind::of_payload(l.reader.width, &payload),
            Ok(SubHeaderKind::RowSize)
        );
    }
}

#[test]
fn check_size_wants_the_fixed_size() {
    assert_eq!(FIXED_SIZE_32, 480);
    assert_eq!(FIXED_SIZE_64, 808);
    assert_eq!(check_size("row size", &[0u8; 480], 4, 480, 808), Ok(()));
    assert_eq!(check_size("row size", &[0u8; 808], 8, 480, 808), Ok(()));
    assert_eq!(
        check_size("row size", &[0u8; 479], 4, 480, 808),
        Err(Error::SubHeaderSizeMismatch { name: "row size", len: 479, word_len: 4 })
    );
    assert_eq!(
        check_size("row size", &[0u8; 481], 4, 480, 808),
        Err(Error::SubHeaderSizeMismatch { name: "row size", len: 481, word_len: 4 })
    );
    assert_eq!(
        check_size("column size", &[0u8; 808], 4, 480, 808),
        Err(Error::SubHeaderSizeMismatch { name: "column size", len: 808, word_len: 4 })
    );
    assert_eq!(
        check_size("column size", &[0u8; 480], 8, 480, 808),
        Err(Error::SubHeaderSizeMismatch { name: "column size", len: 480, word_len: 8 })
    );
    assert_eq!(
        check_size("x", &[0u8; 480], 2, 480, 808),
        Err(Error::SubHeaderSizeMismatch { name: "x", len: 480, word_len: 2 })
    );
    assert_eq!(check_size("x", &[0u8; 12], 4, 12, 24), Ok(()));
    assert_eq!(check_size("x", &[0u8; 24], 8, 12, 24), Ok(()));
}

#[test]
fn row_size_of_479_bytes_fails_and_of_480_succeeds() {
    let l = layout(false, true, false);
    let payload = row_size_payload(&l, [10, 20, 2, 3, 4], 5, 6);
    let mut page = Page::blank(PageType::Meta, 0);
    assert_eq!(page.process_row_size(&l, &payload), Ok(()));
    let mut page = Page::blank(PageType::Meta, 0);
    assert_eq!(
        page.process_row_size(&l, &payload[..479]),
        Err(Error::SubHeaderSizeMismatch { name: ROW_SIZE_NAME, len: 479, word_len: 4 })
    );
    assert_eq!(page, Page::blank(PageType::Meta, 0));
    let mut page = Page::blank(PageType::Meta, 0);
    assert_eq!(
        page.process_sub_header(&l, &payload[..479]),
        Err(Error::SubHeaderSizeMismatch { name: "row size", len: 479, word_len: 4 })
    );
    assert_eq!(page, Page::blank(PageType::Meta, 0));
    assert_eq!(page.process_sub_header(&l, &payload), Ok(()));

    let l64 = layout(true, true, false);
    let payload = row_size_payload(&l64, [10, 20, 2, 3, 4], 5, 6);
    let mut page = Page::blank(PageType::Meta, 0);
    assert_eq!(page.process_row_size(&l64, &payload), Ok(()));
    assert_eq!(
        page.process_row_size(&l64, &payload[..807]),
        Err(Error::SubHeaderSizeMismatch { name: "row size", len: 807, word_len: 8 })
    );
    assert_eq!(
        page.process_row_size(&l64, &payload[..480]),
        Err(Error::SubHeaderSizeMismatch { name: "row size", len: 480, word_len: 8 })
    );
}

#[test]
fn row_size_fields_are_taken() {
    for l in layouts() {
        let big = match l.reader.width {
            WordWidth::W32 => 0xfedc_ba98u64,
            WordWidth::W64 => 0xfedc_ba98_7654_3210u64,
        };
        let payload = row_size_payload(&l, [big, 1000, 7, 5, 33], 0x1234, 0xabcd);
        let mut page = Page::blank(PageType::Mix, 9);
        assert_eq!(page.process_row_size(&l, &payload), Ok(()));
        assert_eq!(page.row_len, big);
        assert_eq!(page.row_count, 1000);
        assert_eq!(page.col_count_p1, 7);
        assert_eq!(page.col_count_p2, 5);
        assert_eq!(page.mix_page_row_count, 33);
        assert_eq!(page.lcs, 0x1234);
        assert_eq!(page.lcp, 0xabcd);
        // the rest stays
        assert_eq!(page.page_type, PageType::Mix);
        assert_eq!(page.block_count, 9);
        assert_eq!(page.col_count, 0);
        assert!(!page.col_count_mismatch);
        assert!(page.sub_headers.is_empty());
    }
}

#[test]
fn column_size_takes_the_total_and_notes_a_mismatch() {
    for l in layouts() {
        let mut page = Page::blank(PageType::Meta, 0);
        let rows = row_size_payload(&l, [8, 100, 2, 3, 0], 0, 0);
        assert_eq!(page.process_sub_header(&l, &rows), Ok(()));
        assert_eq!(page.process_sub_header(&l, &column_size_payload(&l, 6)), Ok(()));
        assert_eq!(page.col_count, 6);
        assert!(page.col_count_mismatch);
        assert_eq!(page.col_count_p1, 2);
        assert_eq!(page.col_count_p2, 3);
        assert_eq!(page.sub_headers, vec![SubHeaderKind::RowSize, SubHeaderKind::ColumnSize]);

        let mut page = Page::blank(PageType::Meta, 0);
        assert_eq!(page.process_row_size(&l, &rows), Ok(()));
        assert_eq!(page.process_column_size(&l, &column_size_payload(&l, 5)), Ok(()));
        assert_eq!(page.col_count, 5);
        assert!(!page.col_count_mismatch);

        // the size is checked as for a row size sub-header
        let short = column_size_payload(&l, 5);
        let before = page.clone();
        assert_eq!(
            page.process_column_size(&l, &short[..24]),
            Err(Error::SubHeaderSizeMismatch {
                name: COLUMN_SIZE_NAME,
                len: 24,
                word_len: l.word_len()
            })
        );
        assert_eq!(page, before);
    }
}

#[test]
fn column_size_before_row_size_is_compared_with_zero() {
    let l = layout(false, true, false);
    let mut page = Page::blank(PageType::Meta, 0);
    assert_eq!(page.process_column_size(&l, &column_size_payload(&l, 0)), Ok(()));
    assert!(!page.col_count_mismatch);
    assert_eq!(page.process_column_size(&l, &column_size_payload(&l, 4)), Ok(()));
    assert!(page.col_count_mismatch);
}

#[test]
fn partial_counts_that_overflow_are_a_mismatch() {
    let l = layout(true, true, false);
    let mut page = Page::blank(PageType::Meta, 0);
    let rows = row_size_payload(&l, [0, 0, u64::MAX, 2, 0], 0, 0);
    assert_eq!(page.process_row_size(&l, &rows), Ok(()));
    assert_eq!(page.process_column_size(&l, &column_size_payload(&l, 1)), Ok(()));
    assert!(page.col_count_mismatch);
}

#[test]
fn the_other_kinds_are_recognised_and_leave_the_metadata() {
    let l = layout(false, false, true);
    let kinds: [([u8; 4], SubHeaderKind); 6] = [
        ([0x00, 0xfc, 0xff, 0xff], SubHeaderKind::Counts),
        ([0xfd, 0xff, 0xff, 0xff], SubHeaderKind::ColumnText),
        ([0xff, 0xff, 0xff, 0xff], SubHeaderKind::ColumnName),
        ([0xfc, 0xff, 0xff, 0xff], SubHeaderKind::ColumnAttributes),
        ([0xfe, 0xfb, 0xff, 0xff], SubHeaderKind::FormatAndLabel),
        ([0xfe, 0xff, 0xff, 0xff], SubHeaderKind::ColumnList),
    ];
    let mut page = Page::blank(PageType::Amd, 1);
    let mut seen = Vec::new();
    for (sig, kind) in kinds {
        assert_eq!(page.process_sub_header(&l, &sig), Ok(()));
        seen.push(kind);
        let mut expected = Page::blank(PageType::Amd, 1);
        expected.sub_headers = seen.clone();
        assert_eq!(page, expected);
    }
    let mut page = Page::blank(PageType::Amd, 1);
    assert_eq!(page.process_counts(&l, &[]), Ok(()));
    assert_eq!(page.process_column_text(&l, &[]), Ok(()));
    assert_eq!(page.process_column_name(&l, &[]), Ok(()));
    assert_eq!(page.process_column_attributes(&l, &[]), Ok(()));
    assert_eq!(page.process_format_and_label(&l, &[]), Ok(()));
    assert_eq!(page.process_column_list(&l, &[]), Ok(()));
    assert_eq!(page, Page::blank(PageType::Amd, 1));
}

#[test]
fn blank_page() {
    let page = Page::blank(PageType::Data, 3);
    assert_eq!(page.page_type, PageType::Data);
    assert_eq!(page.block_count, 3);
    assert_eq!(page.sub_header_count, 0);
    assert_eq!(page.row_len, 0);
    assert_eq!(page.row_count, 0);
    assert_eq!(page.col_count_p1, 0);
    assert_eq!(page.col_count_p2, 0);
    assert_eq!(page.mix_page_row_count, 0);
    assert_eq!(page.lcs, 0);
    assert_eq!(page.lcp, 0);
    assert_eq!(page.col_count, 0);
    assert!(!page.col_count_mismatch);
    assert!(page.sub_headers.is_empty());
}

#[test]
fn data_page_has_no_pointer_table() {
    for l in layouts() {
        let start = l.page_start();
        let mut buf = vec![0xffu8; start + 4];
        put_u16(&l, &mut buf, start, 256);
        put_u16(&l, &mut buf, start + 2, 77);
        // the count and the table are not even there
        assert_eq!(Page::new(&l, &buf), Ok(Page::blank(PageType::Data, 77)));
        buf.extend_from_slice(&[0xff; 500]);
        assert_eq!(Page::new(&l, &buf), Ok(Page::blank(PageType::Data, 77)));
    }
}

#[test]
fn page_type_lies_at_the_page_start() {
    let plain = layout(false, true, false);
    let shifted = layout(false, true, true);
    let mut buf = vec![0u8; 64];
    buf[16] = 0x00;
    buf[17] = 0x01; // 256 at 16
    buf[18] = 5;
    buf[32] = 0x07; // 7 at 32
    assert_eq!(Page::new(&plain, &buf), Ok(Page::blank(PageType::Data, 5)));
    assert_eq!(Page::new(&shifted, &buf), Err(Error::InvalidPageType(7)));
    // the word width does not move the page start
    let wide = layout(true, true, false);
    assert_eq!(Page::new(&wide, &buf), Ok(Page::blank(PageType::Data, 5)));
}

#[test]
fn invalid_page_type_is_a_fault() {
    for l in layouts() {
        for code in [1u16, 255, 257, 513, 1023, 1025, 0xffff] {
            let page = page_with(&l, code, 0, &[]);
            assert_eq!(Page::new(&l, &page), Err(Error::InvalidPageType(code)));
        }
    }
}

#[test]
fn page_too_short_for_its_fields_is_truncated() {
    for l in layouts() {
        let full = page_with(&l, 0, 2, &[]);
        let start = l.page_start();
        assert_eq!(full.len(), start + 8);
        assert_eq!(Page::new(&l, &[]), Err(Error::Truncated));
        assert_eq!(Page::new(&l, &full[..start + 1]), Err(Error::Truncated));
        assert_eq!(Page::new(&l, &full[..start + 3]), Err(Error::Truncated));
        assert_eq!(Page::new(&l, &full[..start + 5]), Err(Error::Truncated));
        let mut expected = Page::blank(PageType::Meta, 2);
        expected.sub_header_count = 0;
        assert_eq!(Page::new(&l, &full[..start + 6]), Ok(expected));
    }
}

#[test]
fn pointer_table_that_leaves_the_page_is_truncated() {
    for l in layouts() {
        let e = entry(&l, 0, 0, 0, 0);
        let start = l.page_start();
        let len = start + 8 + 3 * l.sub_header_ptr_len();
        let page = page_with_entries(&l, 512, &[e.clone(), e.clone(), e.clone()], len);
        let decoded = Page::new(&l, &page).unwrap();
        assert_eq!(decoded.sub_header_count, 3);
        assert!(decoded.sub_headers.is_empty());
        assert_eq!(Page::new(&l, &page[..len - 1]), Err(Error::Truncated));
        assert_eq!(
            Page::new(&l, &page[..start + 8 + l.sub_header_ptr_len()]),
            Err(Error::Truncated)
        );
    }
}

#[test]
fn meta_page_with_row_size_and_column_size() {
    for l in layouts() {
        for code in [0u16, 1024, 512, 640] {
            let rows = row_size_payload(&l, [64, 1000, 4, 2, 12], 3, 9);
            let cols = column_size_payload(&l, 6);
            let text = signature_of(
                &l,
                [0xfd, 0xff, 0xff, 0xff],
                [0xff, 0xff, 0xff, 0xff, 0xff, 0xff, 0xff, 0xfd],
            );
            let buf = page_with(&l, code, 11, &[rows, cols, text]);
            let page = Page::new(&l, &buf).unwrap();
            assert_eq!(page.page_type, PageType::from_u16(code).unwrap());
            assert_eq!(page.block_count, 11);
            assert_eq!(page.sub_header_count, 3);
            assert_eq!(page.row_len, 64);
            assert_eq!(page.row_count, 1000);
            assert_eq!(page.col_count_p1, 4);
            assert_eq!(page.col_count_p2, 2);
            assert_eq!(page.mix_page_row_count, 12);
            assert_eq!(page.lcs, 3);
            assert_eq!(page.lcp, 9);
            assert_eq!(page.col_count, 6);
            assert!(!page.col_count_mismatch);
            assert_eq!(
                page.sub_headers,
                vec![SubHeaderKind::RowSize, SubHeaderKind::ColumnSize, SubHeaderKind::ColumnText]
            );
        }
    }
}

#[test]
fn column_count_mismatch_is_noted_and_no_fault() {
    for l in layouts() {
        let rows = row_size_payload(&l, [64, 1000, 2, 3, 0], 0, 0);
        let cols = column_size_payload(&l, 6);
        let page = Page::new(&l, &page_with(&l, 0, 0, &[rows, cols])).unwrap();
        assert_eq!(page.col_count_p1 + page.col_count_p2, 5);
        assert_eq!(page.col_count, 6);
        assert!(page.col_count_mismatch);
        assert_eq!(page.sub_headers, vec![SubHeaderKind::RowSize, SubHeaderKind::ColumnSize]);
    }
}

#[test]
fn dead_pointers_are_passed_over() {
    for l in layouts() {
        let start = l.page_start();
        let len = start + 8 + 4 * l.sub_header_ptr_len() + 16;
        let garbage_at = (len - 16) as u64;
        let entries = [
            // no length, and an offset far outside the page
            entry(&l, 0xffff_0000, 0, 0, 0),
            // cut off, with a range that leaves the page
            entry(&l, 8, 0x00ff_ffff, 1, 0),
            // cut off, pointing at bytes with no known signature
            entry(&l, garbage_at, 16, 1, 3),
            // no length and cut off
            entry(&l, 0, 0, 1, 0),
        ];
        let mut buf = page_with_entries(&l, 0, &entries, len);
        for b in buf[len - 16..].iter_mut() {
            *b = 0x5a;
        }
        let page = Page::new(&l, &buf).unwrap();
        let mut expected = Page::blank(PageType::Meta, 0);
        expected.sub_header_count = 4;
        assert_eq!(page, expected);
        assert!(page.sub_headers.is_empty());

        // the same bytes behind a live pointer are a fault
        let live = [entry(&l, garbage_at, 16, 0, 3)];
        let mut buf = page_with_entries(&l, 0, &live, len);
        for b in buf[len - 16..].iter_mut() {
            *b = 0x5a;
        }
        let signature = match l.reader.width {
            WordWidth::W32 => 0x5a5a_5a5a,
            WordWidth::W64 => 0x5a5a_5a5a_5a5a_5a5a,
        };
        assert_eq!(
            Page::new(&l, &buf),
            Err(Error::UnrecognizedSubHeaderSignature { signature, word_len: l.word_len() })
        );
    }
}

#[test]
fn process_entry_applies_one_entry() {
    let l = layout(false, true, false);
    let rows = row_size_payload(&l, [1, 2, 3, 4, 5], 6, 7);
    let buf = page_with(&l, 0, 0, &[rows]);
    let mut page = Page::blank(PageType::Meta, 0);
    assert_eq!(page.process_entry(&l, &buf, 24), Ok(()));
    assert_eq!(page.row_count, 2);
    assert_eq!(page.sub_headers, vec![SubHeaderKind::RowSize]);
    let before = page.clone();
    assert_eq!(page.process_entry(&l, &buf, buf.len() - 11), Err(Error::Truncated));
    assert_eq!(page.process_entry(&l, &buf, usize::MAX - 12), Err(Error::Truncated));
    assert_eq!(page.process_entry(&l, &buf, usize::MAX), Err(Error::Truncated));
    assert_eq!(page, before);
}

#[test]
fn live_pointer_that_leaves_the_page_is_truncated() {
    for l in layouts() {
        let start = l.page_start();
        let len = start + 8 + l.sub_header_ptr_len() + 8;
        let at = (len - 8) as u64;
        let sig = signature_of(&l, [0xff; 4], [0xff; 8]);
        let mut buf = page_with_entries(&l, 0, &[entry(&l, at, 8, 0, 0)], len);
        buf[len - 8..len - 8 + sig.len()].copy_from_slice(&sig);
        let page = Page::new(&l, &buf).unwrap();
        assert_eq!(page.sub_headers, vec![SubHeaderKind::ColumnName]);

        let buf = page_with_entries(&l, 0, &[entry(&l, at, 9, 0, 0)], len);
        assert_eq!(Page::new(&l, &buf), Err(Error::Truncated));
        let buf = page_with_entries(&l, 0, &[entry(&l, len as u64 + 1, 1, 4, 0)], len);
        assert_eq!(Page::new(&l, &buf), Err(Error::Truncated));
        let far = match l.reader.width {
            WordWidth::W32 => 0xffff_ffffu64,
            WordWidth::W64 => u64::MAX,
        };
        let buf = page_with_entries(&l, 0, &[entry(&l, far, far, 0, 0)], len);
        assert_eq!(Page::new(&l, &buf), Err(Error::Truncated));
        // a live sub-header shorter than a word has no signature
        let buf = page_with_entries(&l, 0, &[entry(&l, at, 3, 0, 0)], len);
        assert_eq!(Page::new(&l, &buf), Err(Error::Truncated));
    }
}

#[test]
fn the_first_fault_ends_the_page() {
    for l in layouts() {
        let rows = row_size_payload(&l, [1, 2, 3, 4, 5], 6, 7);
        let mut short = column_size_payload(&l, 7);
        short.truncate(100);
        let unknown = vec![0x11u8; 16];
        let buf = page_with(&l, 0, 0, &[rows.clone(), short, unknown.clone()]);
        assert_eq!(
            Page::new(&l, &buf),
            Err(Error::SubHeaderSizeMismatch {
                name: "column size",
                len: 100,
                word_len: l.word_len()
            })
        );
        let signature = match l.reader.width {
            WordWidth::W32 => 0x1111_1111,
            WordWidth::W64 => 0x1111_1111_1111_1111,
        };
        let buf = page_with(&l, 0, 0, &[unknown, rows]);
        assert_eq!(
            Page::new(&l, &buf),
            Err(Error::UnrecognizedSubHeaderSignature { signature, word_len: l.word_len() })
        );
    }
}

#[test]
fn unknown_compression_code_is_a_fault_even_without_length() {
    for l in layouts() {
        let len = l.page_start() + 8 + 2 * l.sub_header_ptr_len();
        let entries = [entry(&l, 0, 0, 0, 0), entry(&l, 0, 0, 9, 0)];
        let buf = page_with_entries(&l, 1024, &entries, len);
        assert_eq!(Page::new(&l, &buf), Err(Error::InvalidCompressionCode(9)));
    }
}

#[test]
fn compressed_sub_headers_are_dispatched() {
    let l = layout(false, true, false);
    let rows = row_size_payload(&l, [1, 2, 3, 4, 5], 6, 7);
    let at = (l.page_start() + 8 + l.sub_header_ptr_len()) as u64;
    let mut buf = page_with_entries(&l, 0, &[entry(&l, at, 480, 4, 0)], at as usize);
    buf.extend_from_slice(&rows);
    let page = Page::new(&l, &buf).unwrap();
    assert_eq!(page.row_count, 2);
    assert_eq!(page.sub_headers, vec![SubHeaderKind::RowSize]);
}
