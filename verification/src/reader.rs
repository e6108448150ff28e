//! The reader of one file: it takes the header from the first block, then
//! one page after the other until the page count is reached. It reads no
//! stream itself: the caller fetches the bytes and hands them in.

use crate::errors::Error;
use crate::header::{parse_header, Header, HeaderView};
use crate::page::{decode_page, Page};
use vstd::prelude::*;

verus! {

/// The state of reading one file: its header and the number of pages taken
/// so far.
#[derive(Debug, Clone)]
pub struct Reader {
    header: Header,
    page_num: u64,
}

impl Reader {
    /// The header of the file.
    pub closed spec fn spec_header(&self) -> &Header {
        &self.header
    }

    /// The number of pages taken so far.
    pub closed spec fn spec_pages_read(&self) -> u64 {
        self.page_num
    }

    /// Whether every page has been taken.
    pub open spec fn spec_is_exhausted(&self) -> bool {
        self.spec_pages_read() >= self.spec_header().page_count
    }

    /// Starts on a file whose first block, of 1024 bytes, is `block`. A
    /// block without a valid header is refused with the fault of the header.
    /// No page has been taken yet. Before the first page the stream holds
    /// `header().padding()` further bytes of header, to be passed over.
    pub fn from_reader(block: &[u8]) -> (r: Result<Reader, Error>)
        ensures
            match r {
                Ok(reader) => parse_header(block@) == Ok::<_, Error>(reader.spec_header()@)
                    && reader.spec_pages_read() == 0,
                Err(e) => parse_header(block@) == Err::<HeaderView, Error>(e),
            },
    {
        match Header::parse(block) {
            Ok(header) => Ok(Reader { header, page_num: 0 }),
            Err(e) => Err(e),
        }
    }

    /// The header of the file.
    #[verifier::when_used_as_spec(spec_header)]
    pub fn header(&self) -> (r: &Header)
        ensures
            r == self.spec_header(),
    {
        &self.header
    }

    /// The number of pages taken so far.
    #[verifier::when_used_as_spec(spec_pages_read)]
    pub fn pages_read(&self) -> (r: u64)
        ensures
            r == self.spec_pages_read(),
    {
        self.page_num
    }

    /// Whether every page has been taken. From then on `next_page` asks for
    /// no bytes and returns no page.
    #[verifier::when_used_as_spec(spec_is_exhausted)]
    pub fn is_exhausted(&self) -> (r: bool)
        ensures
            r == self.spec_is_exhausted(),
    {
        self.page_num >= self.header.page_count
    }

    /// Takes the next page. Once every page has been taken the result is
    /// `None`, `buf` is not looked at and nothing changes. Before that,
    /// `buf` holds the next `page_len` bytes of the stream: the page in it
    /// is decoded and counted, or its first fault is returned and the count
    /// stays.
    pub fn next_page(&mut self, buf: &[u8]) -> (r: Result<Option<Page>, Error>)
        requires
            !old(self).spec_is_exhausted() ==> buf@.len() == old(self).spec_header().page_len,
        ensures
            final(self).spec_header() == old(self).spec_header(),
            old(self).spec_is_exhausted() ==> r == Ok::<Option<Page>, Error>(None)
                && final(self).spec_pages_read() == old(self).spec_pages_read(),
            !old(self).spec_is_exhausted() ==> match decode_page(
                old(self).spec_header().spec_layout(),
                buf@,
            ) {
                Ok(page) => r matches Ok(Some(p)) && p@ == page && final(self).spec_pages_read()
                    == old(self).spec_pages_read() + 1,
                Err(e) => r == Err::<Option<Page>, Error>(e) && final(self).spec_pages_read()
                    == old(self).spec_pages_read(),
            },
    {
        if self.page_num >= self.header.page_count {
            return Ok(None);
        }
        let layout = self.header.layout();
        match Page::new(&layout, buf) {
            Ok(page) => {
                self.page_num = self.page_num + 1;
                Ok(Some(page))
            },
            Err(e) => Err(e),
        }
    }
}

} // verus!
