//! Spreadsheet pages: a grid of cells, and the split of a long table into pages
//! of at most a hundred data rows, each under its own header row.

use vstd::prelude::*;

verus! {

/// Data rows on one page.
pub const PAGE_ROWS: usize = 100;

/// One cell of a sheet.
#[derive(Debug, PartialEq, Eq)]
pub enum CellValue {
    /// Nothing is written in the cell.
    Blank,
    Text(String),
    Number(i64),
    Flag(bool),
}

/// What a cell holds.
pub enum CellView {
    Blank,
    Text(Seq<char>),
    Number(int),
    Flag(bool),
}

impl View for CellValue {
    type V = CellView;

    open spec fn view(&self) -> CellView {
        match self {
            CellValue::Blank => CellView::Blank,
            CellValue::Text(s) => CellView::Text(s@),
            CellValue::Number(n) => CellView::Number(*n as int),
            CellValue::Flag(b) => CellView::Flag(*b),
        }
    }
}

impl CellValue {
    /// A cell holding the same value.
    pub fn copy(&self) -> (r: CellValue)
        ensures
            r@ == self@,
    {
        match self {
            CellValue::Blank => CellValue::Blank,
            CellValue::Text(s) => CellValue::Text(s.clone()),
            CellValue::Number(n) => CellValue::Number(*n),
            CellValue::Flag(b) => CellValue::Flag(*b),
        }
    }
}

/// What a row of cells holds.
pub open spec fn row_view(r: Seq<CellValue>) -> Seq<CellView> {
    r.map_values(|c: CellValue| c@)
}

/// What a sequence of rows holds.
pub open spec fn rows_view(rows: Seq<Vec<CellValue>>) -> Seq<Seq<CellView>> {
    rows.map_values(|r: Vec<CellValue>| row_view(r@))
}

/// One sheet: its rows from the top, each row's cells from the left.
#[derive(Debug, PartialEq, Eq)]
pub struct Page {
    pub rows: Vec<Vec<CellValue>>,
}

impl View for Page {
    type V = Seq<Seq<CellView>>;

    open spec fn view(&self) -> Seq<Seq<CellView>> {
        rows_view(self.rows@)
    }
}

/// What a sequence of pages holds.
pub open spec fn pages_view(pages: Seq<Page>) -> Seq<Seq<Seq<CellView>>> {
    pages.map_values(|p: Page| p@)
}

/// Pages needed for `n` data rows: `n / 100`, rounded up.
pub open spec fn page_count(n: int) -> int {
    (n + PAGE_ROWS - 1) / (PAGE_ROWS as int)
}

/// Index of the first data row on page `k`.
pub open spec fn page_start(k: int) -> int {
    k * PAGE_ROWS
}

/// Index one past the last data row on page `k` of `n` data rows.
pub open spec fn page_end(k: int, n: int) -> int {
    if page_start(k) + PAGE_ROWS < n {
        page_start(k) + PAGE_ROWS
    } else {
        n
    }
}

/// Page `k` of a table: the header, then the data rows that fall on that page.
pub open spec fn page_of(header: Seq<CellView>, rows: Seq<Seq<CellView>>, k: int) -> Seq<Seq<CellView>> {
    seq![header] + rows.subrange(page_start(k), page_end(k, rows.len() as int))
}

/// A table split into pages.
pub open spec fn paged(header: Seq<CellView>, rows: Seq<Seq<CellView>>) -> Seq<Seq<Seq<CellView>>> {
    Seq::new(page_count(rows.len() as int) as nat, |k: int| page_of(header, rows, k))
}

/// A row holding the same cells.
pub fn copy_row(row: &Vec<CellValue>) -> (r: Vec<CellValue>)
    ensures
        row_view(r@) == row_view(row@),
{
    let mut r: Vec<CellValue> = Vec::new();
    let mut i: usize = 0;
    while i < row.len()
        invariant
            i <= row.len(),
            row_view(r@) =~= row_view(row@.subrange(0, i as int)),
        decreases row.len() - i,
    {
        let c = row[i].copy();
        let ghost before = r@;
        r.push(c);
        i = i + 1;
        assert(row_view(r@) =~= row_view(before).push(row@[i - 1]@));
        assert(row@.subrange(0, i as int) =~= row@.subrange(0, i - 1).push(row@[i - 1]));
        assert(row_view(r@) =~= row_view(row@.subrange(0, i as int)));
    }
    assert(row@.subrange(0, i as int) =~= row@);
    r
}

impl Page {
    /// A page holding the same cells.
    pub fn copy(&self) -> (r: Page)
        ensures
            r@ == self@,
    {
        let mut rows: Vec<Vec<CellValue>> = Vec::new();
        let mut i: usize = 0;
        while i < self.rows.len()
            invariant
                i <= self.rows.len(),
                rows_view(rows@) =~= rows_view(self.rows@.subrange(0, i as int)),
            decreases self.rows.len() - i,
        {
            let r = copy_row(&self.rows[i]);
            let ghost before = rows@;
            rows.push(r);
            i = i + 1;
            assert(rows_view(rows@) =~= rows_view(before).push(row_view(self.rows@[i - 1]@)));
            assert(self.rows@.subrange(0, i as int) =~= self.rows@.subrange(0, i - 1).push(
                self.rows@[i - 1],
            ));
        }
        assert(self.rows@.subrange(0, i as int) =~= self.rows@);
        Page { rows }
    }
}

/// Splits a table into pages of at most a hundred data rows, in order, each page
/// starting with a copy of the header row.
pub fn paginate(header: &Vec<CellValue>, rows: &Vec<Vec<CellValue>>) -> (pages: Vec<Page>)
    ensures
        pages_view(pages@) == paged(row_view(header@), rows_view(rows@)),
{
    let ghost h = row_view(header@);
    let ghost rs = rows_view(rows@);
    let n = rows.len();
    let mut pages: Vec<Page> = Vec::new();
    let mut start: usize = 0;
    while start < n
        invariant
            n == rows.len(),
            rs == rows_view(rows@),
            h == row_view(header@),
            start <= n,
            start < n ==> start as int == page_start(pages.len() as int),
            start == n ==> page_start(pages.len() as int) >= n,
            pages.len() == page_count(start as int),
            forall|k: int| 0 <= k < pages.len() ==> #[trigger] pages@[k]@ == page_of(h, rs, k),
        decreases n - start,
    {
        let end = if n - start > PAGE_ROWS {
            start + PAGE_ROWS
        } else {
            n
        };
        assert(end as int == page_end(pages.len() as int, n as int));
        let mut page_rows: Vec<Vec<CellValue>> = Vec::new();
        page_rows.push(copy_row(header));
        assert(rows_view(page_rows@) =~= seq![h] + rs.subrange(start as int, start as int));
        let mut j: usize = start;
        while j < end
            invariant
                start <= j <= end <= n,
                n == rows.len(),
                rs == rows_view(rows@),
                h == row_view(header@),
                rows_view(page_rows@) =~= seq![h] + rs.subrange(start as int, j as int),
            decreases end - j,
        {
            let r = copy_row(&rows[j]);
            let ghost before = page_rows@;
            page_rows.push(r);
            j = j + 1;
            assert(rows_view(page_rows@) =~= rows_view(before).push(rs[j - 1]));
            assert(seq![h] + rs.subrange(start as int, j as int) =~= (seq![h] + rs.subrange(
                start as int,
                j - 1,
            )).push(rs[j - 1]));
        }
        let page = Page { rows: page_rows };
        assert(page@ == page_of(h, rs, pages.len() as int));
        pages.push(page);
        start = end;
    }
    assert(pages_view(pages@) =~= paged(h, rs));
    pages
}

/// Paging a table of `n` rows gives `n / 100` pages, rounded up; each page holds the
/// header and then at most a hundred data rows, and the data rows of page `k` are the
/// rows from index `100 * k` on, in their order, so that reading the pages one after
/// another gives back every row once and in input order.
pub proof fn paging_law(header: Seq<CellView>, rows: Seq<Seq<CellView>>)
    ensures
        paged(header, rows).len() == page_count(rows.len() as int),
        forall|k: int|
            0 <= k < paged(header, rows).len() ==> {
                let p = #[trigger] paged(header, rows)[k];
                &&& 2 <= p.len() <= PAGE_ROWS + 1
                &&& p[0] == header
                &&& forall|j: int|
                    1 <= j < p.len() ==> p[j] == rows[page_start(k) + j - 1]
            },
        forall|k: int|
            0 <= k < paged(header, rows).len() ==> page_end(k, rows.len() as int)
                == if k + 1 < paged(header, rows).len() {
                page_start(k + 1)
            } else {
                rows.len() as int
            },
{
    let n = rows.len() as int;
    assert forall|k: int| 0 <= k < paged(header, rows).len() implies {
        let p = #[trigger] paged(header, rows)[k];
        &&& 2 <= p.len() <= PAGE_ROWS + 1
        &&& p[0] == header
        &&& forall|j: int| 1 <= j < p.len() ==> p[j] == rows[page_start(k) + j - 1]
    } by {
        assert(k * 100 < n);
        let p = paged(header, rows)[k];
        assert(p == page_of(header, rows, k));
    }
}

} // verus!
