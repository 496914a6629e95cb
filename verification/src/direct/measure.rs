//! Direct row payload measurement.

use vstd::prelude::*;

use crate::diagnostic::{invalid_payload, outcome, payload_error, ErrorView, Result};
use crate::direct::layout::{fault_outcome, RowLayout};
use crate::direct::rows::{
    build_fixed_width_row_range_layout, cells_len, layout_result, lemma_cell_end,
    lemma_cell_index, lemma_cells_len_monotone, lemma_rows_len_monotone, row_len, row_major_layout,
    rows_len, ROW_TOKEN_LEN,
};
use crate::message::Fault;

verus! {

/// Contiguous measured row range.
#[derive(Debug, Clone, Copy, PartialEq, Eq, Structural)]
pub struct MeasuredRowRange {
    /// First row in the measured batch.
    pub start: usize,
    /// Number of rows in this range.
    pub len: usize,
}

/// Direct row payload measurement for one runtime batch.
#[derive(Debug, PartialEq, Eq)]
pub struct MeasuredDirectBatch {
    row_count: usize,
    column_count: usize,
    cell_lengths: Vec<usize>,
    row_lengths: Vec<usize>,
    payload_len: usize,
}

/// What contracts know of a [`MeasuredDirectBatch`].
#[verifier::ext_equal]
pub struct MeasuredView {
    /// Number of rows.
    pub row_count: usize,
    /// Number of columns.
    pub column_count: usize,
    /// Length of every cell, in row-major order.
    pub cell_lengths: Seq<usize>,
}

impl MeasuredView {
    /// Bytes of consecutive rows.
    pub open spec fn range_len(self, start: int, count: int) -> int {
        rows_len(self.cell_lengths, self.column_count as int, start, count)
    }

    /// Bytes of all rows.
    pub open spec fn total_len(self) -> int {
        self.range_len(0, self.row_count as int)
    }
}

/// Whether there is one length per cell and the rows' bytes can be counted.
pub open spec fn is_measured(batch: MeasuredView) -> bool {
    &&& batch.cell_lengths.len() == batch.row_count * batch.column_count
    &&& batch.cell_lengths.len() <= usize::MAX
    &&& batch.total_len() <= usize::MAX
}

/// The fault of the first row, from an index on, whose bytes cannot be counted.
pub open spec fn first_length_fault(batch: MeasuredView, row: int) -> Option<Fault>
    decreases batch.row_count - row,
{
    if row < 0 || row >= batch.row_count {
        None
    } else if row_len(batch.cell_lengths, batch.column_count as int, row) > usize::MAX {
        Some(Fault::MeasuredRowOverflow)
    } else if batch.range_len(0, row + 1) > usize::MAX {
        Some(Fault::MeasuredPayloadOverflow)
    } else {
        first_length_fault(batch, row + 1)
    }
}

/// The fault of a matrix of cell lengths.
pub open spec fn measurement_fault(batch: MeasuredView) -> Option<Fault> {
    if batch.row_count * batch.column_count > usize::MAX {
        Some(Fault::CellCountOverflow)
    } else if batch.cell_lengths.len() != batch.row_count * batch.column_count {
        Some(
            Fault::CellCountMismatch {
                count: batch.cell_lengths.len() as usize,
                row_count: batch.row_count,
                column_count: batch.column_count,
            },
        )
    } else {
        first_length_fault(batch, 0)
    }
}

/// The bytes of each row.
pub open spec fn row_lengths_of(batch: MeasuredView, count: int) -> Seq<usize> {
    Seq::new(
        count as nat,
        |row: int| row_len(batch.cell_lengths, batch.column_count as int, row) as usize,
    )
}

/// The fault of a row range that was not measured.
pub open spec fn range_fault(batch: MeasuredView, start: usize, count: usize) -> Option<Fault> {
    if start + count > usize::MAX {
        Some(Fault::RangeEndOverflow)
    } else if start + count > batch.row_count {
        Some(
            Fault::MeasuredRange {
                start,
                end: (start + count) as usize,
                row_count: batch.row_count,
            },
        )
    } else {
        None
    }
}

/// Whether row ranges split the rows in order, each as long as a byte limit allows.
///
/// A range holds at least one row. It stays within the limit unless it holds one row only, and
/// the first row of the next range would not have fitted.
pub open spec fn is_row_partition(
    batch: MeasuredView,
    max_payload_bytes: usize,
    ranges: Seq<MeasuredRowRange>,
) -> bool {
    &&& ranges.len() == 0 <==> batch.row_count == 0
    &&& ranges.len() > 0 ==> ranges[0].start == 0 && ranges.last().start + ranges.last().len
        == batch.row_count
    &&& forall|i: int|
        #![trigger ranges[i]]
        0 <= i < ranges.len() ==> range_is_full(batch, max_payload_bytes, ranges, i)
}

/// Whether one range of a partition holds rows within the limit and takes in all that fit.
pub open spec fn range_is_full(
    batch: MeasuredView,
    max_payload_bytes: usize,
    ranges: Seq<MeasuredRowRange>,
    index: int,
) -> bool {
    let range = ranges[index];
    &&& range.len > 0
    &&& range.len == 1 || batch.range_len(range.start as int, range.len as int)
        <= max_payload_bytes
    &&& index + 1 < ranges.len() ==> ranges[index + 1].start == range.start + range.len
        && batch.range_len(range.start as int, range.len + 1) > max_payload_bytes
}

impl View for MeasuredDirectBatch {
    type V = MeasuredView;

    closed spec fn view(&self) -> MeasuredView {
        MeasuredView {
            row_count: self.row_count,
            column_count: self.column_count,
            cell_lengths: self.cell_lengths@,
        }
    }
}

impl MeasuredDirectBatch {
    /// Row lengths and payload length follow from the cell lengths.
    #[verifier::type_invariant]
    pub closed spec fn well_formed(self) -> bool {
        &&& is_measured(self@)
        &&& self.row_lengths@ == row_lengths_of(self@, self.row_count as int)
        &&& self.payload_len == self@.total_len()
    }

    /// Measures a batch without rows.
    pub fn empty(column_count: usize) -> (batch: Self)
        ensures
            batch@ == (MeasuredView { row_count: 0, column_count, cell_lengths: Seq::empty() }),
            is_measured(batch@),
    {
        let cell_lengths: Vec<usize> = Vec::new();
        let row_lengths: Vec<usize> = Vec::new();
        let ghost view = MeasuredView { row_count: 0, column_count, cell_lengths: Seq::empty() };
        proof {
            assert(cell_lengths@ =~= Seq::empty());
            assert(row_lengths@ =~= row_lengths_of(view, 0));
            assert(0 * column_count == 0) by (nonlinear_arith);
        }
        MeasuredDirectBatch { row_count: 0, column_count, cell_lengths, row_lengths, payload_len: 0 }
    }

    /// Measures a batch from a row-major matrix of cell lengths.
    pub fn new(row_count: usize, column_count: usize, cell_lengths: Vec<usize>) -> (result: Result<
        Self,
    >)
        ensures
            ({
                let batch = MeasuredView { row_count, column_count, cell_lengths: cell_lengths@ };
                match measurement_fault(batch) {
                    Some(fault) => result matches Err(error) && error@ == payload_error(fault),
                    None => result matches Ok(found) && found@ == batch && is_measured(batch),
                }
            }),
    {
        let expected_cell_count: usize = match row_count.checked_mul(column_count) {
            Some(count) => count,
            None => {
                return Err(invalid_payload(Fault::CellCountOverflow));
            },
        };
        if cell_lengths.len() != expected_cell_count {
            return Err(
                invalid_payload(
                    Fault::CellCountMismatch { count: cell_lengths.len(), row_count, column_count },
                ),
            );
        }
        match measure_row_lengths(row_count, column_count, cell_lengths.as_slice()) {
            Ok((row_lengths, payload_len)) => Ok(
                MeasuredDirectBatch {
                    row_count,
                    column_count,
                    cell_lengths,
                    row_lengths,
                    payload_len,
                },
            ),
            Err(error) => Err(error),
        }
    }

    /// Returns the measured row count.
    pub fn row_count(&self) -> (count: usize)
        ensures
            count == self@.row_count,
            is_measured(self@),
    {
        proof {
            use_type_invariant(self);
        }
        self.row_count
    }

    /// Returns the measured column count.
    pub fn column_count(&self) -> (count: usize)
        ensures
            count == self@.column_count,
    {
        self.column_count
    }

    /// Returns the complete measured payload length.
    pub fn payload_len(&self) -> (len: usize)
        ensures
            len == self@.total_len(),
    {
        proof {
            use_type_invariant(self);
        }
        self.payload_len
    }

    /// Splits measured rows into payload ranges capped by byte length.
    pub fn row_ranges(&self, max_payload_bytes: usize) -> (result: Result<Vec<MeasuredRowRange>>)
        ensures
            max_payload_bytes == 0 ==> outcome(result) == Err::<Vec<MeasuredRowRange>, ErrorView>(
                payload_error(Fault::ZeroRangeLimit),
            ),
            max_payload_bytes > 0 ==> (result matches Ok(ranges) && is_row_partition(
                self@,
                max_payload_bytes,
                ranges@,
            )),
    {
        if max_payload_bytes == 0 {
            return Err(invalid_payload(Fault::ZeroRangeLimit));
        }
        proof {
            use_type_invariant(self);
        }
        let ghost batch = self@;
        let mut ranges: Vec<MeasuredRowRange> = Vec::new();
        let mut start: usize = 0;
        let mut len: usize = 0;
        let mut bytes: usize = 0;
        let mut row_index: usize = 0;
        while row_index < self.row_count
            invariant
                row_index <= self.row_count,
                batch == self@,
                batch.row_count == self.row_count,
                is_measured(batch),
                self.row_lengths@ == row_lengths_of(batch, self.row_count as int),
                start + len == row_index,
                bytes == batch.range_len(start as int, len as int),
                len == 0 ==> row_index == 0,
                len <= 1 || bytes <= max_payload_bytes,
                ranges@.len() == 0 ==> start == 0,
                ranges@.len() > 0 ==> len > 0 && ranges@[0].start == 0 && ranges@.last().start
                    + ranges@.last().len == start && batch.range_len(
                    ranges@.last().start as int,
                    ranges@.last().len + 1,
                ) > max_payload_bytes,
                forall|i: int|
                    #![trigger ranges@[i]]
                    0 <= i < ranges@.len() ==> range_is_full(
                        batch,
                        max_payload_bytes,
                        ranges@,
                        i,
                    ),
            decreases self.row_count - row_index,
        {
            let ghost columns = batch.column_count as int;
            let row_len: usize = self.row_lengths[row_index];
            proof {
                law_range_len_is_additive(batch, 0, start as int, len + 1);
                lemma_rows_len_monotone(
                    batch.cell_lengths,
                    columns,
                    0,
                    0,
                    start as int,
                );
                lemma_rows_len_monotone(
                    batch.cell_lengths,
                    columns,
                    0,
                    row_index + 1,
                    batch.row_count as int,
                );
                lemma_rows_len_monotone(batch.cell_lengths, columns, start as int, 0, len as int);
                lemma_cells_len_monotone(
                    batch.cell_lengths,
                    columns,
                    row_index as int,
                    0,
                    columns,
                );
            }
            let next_bytes: usize = bytes + row_len;
            if len > 0 && next_bytes > max_payload_bytes {
                let ghost before = ranges@;
                ranges.push(MeasuredRowRange { start, len });
                proof {
                    assert forall|i: int|
                        #![trigger ranges@[i]]
                        0 <= i < ranges@.len() implies range_is_full(
                        batch,
                        max_payload_bytes,
                        ranges@,
                        i,
                    ) by {
                        if i < before.len() {
                            assert(range_is_full(batch, max_payload_bytes, before, i)) by {
                                assert(before[i] == ranges@[i]);
                            }
                        }
                    }
                }
                start = row_index;
                len = 0;
                bytes = row_len;
                assert(batch.range_len(start as int, 1) == batch.range_len(start as int, 0)
                    + row_len);
            } else {
                bytes = next_bytes;
            }
            len += 1;
            row_index += 1;
        }
        if len > 0 {
            let ghost before = ranges@;
            ranges.push(MeasuredRowRange { start, len });
            proof {
                assert forall|i: int|
                    #![trigger ranges@[i]]
                    0 <= i < ranges@.len() implies range_is_full(
                    batch,
                    max_payload_bytes,
                    ranges@,
                    i,
                ) by {
                    if i < before.len() {
                        assert(range_is_full(batch, max_payload_bytes, before, i)) by {
                            assert(before[i] == ranges@[i]);
                        }
                    }
                }
            }
        }
        Ok(ranges)
    }

    /// Returns the bytes of a measured row range.
    pub fn range_payload_len(&self, start_row: usize, row_count: usize) -> (result: Result<usize>)
        ensures
            outcome(result) == match range_fault(self@, start_row, row_count) {
                Some(fault) => Err(payload_error(fault)),
                None => Ok(self@.range_len(start_row as int, row_count as int) as usize),
            },
            range_fault(self@, start_row, row_count) is None ==> self@.range_len(
                start_row as int,
                row_count as int,
            ) <= usize::MAX,
    {
        match self.check_range(start_row, row_count) {
            Ok(()) => {},
            Err(error) => {
                return Err(error);
            },
        }
        proof {
            use_type_invariant(self);
            lemma_range_fits(self@, start_row as int, row_count as int);
        }
        let end_row: usize = start_row + row_count;
        let mut total: usize = 0;
        let mut row_index: usize = start_row;
        while row_index < end_row
            invariant
                start_row <= row_index <= end_row,
                end_row == start_row + row_count,
                end_row <= self.row_count,
                self.row_lengths@ == row_lengths_of(self@, self.row_count as int),
                is_measured(self@),
                self.row_count == self@.row_count,
                self@.range_len(start_row as int, row_count as int) <= usize::MAX,
                total == self@.range_len(start_row as int, row_index - start_row),
            decreases end_row - row_index,
        {
            proof {
                let lengths = self@.cell_lengths;
                let columns = self@.column_count as int;
                lemma_cell_end(
                    lengths,
                    columns,
                    start_row as int,
                    row_count as int,
                    row_index - start_row,
                    columns,
                );
            }
            total += self.row_lengths[row_index];
            row_index += 1;
        }
        Ok(total)
    }

    /// Returns the measured length of one cell.
    pub fn cell_len(&self, row_index: usize, column_index: usize) -> (result: Result<usize>)
        ensures
            outcome(result) == match range_fault(self@, row_index, 1) {
                Some(fault) => Err(payload_error(fault)),
                None => if column_index >= self@.column_count {
                    Err(
                        payload_error(
                            Fault::MeasuredColumn { column_index, column_count: self@.column_count },
                        ),
                    )
                } else {
                    Ok(self@.cell_lengths[row_index * self@.column_count + column_index])
                },
            },
    {
        match self.check_range(row_index, 1) {
            Ok(()) => {},
            Err(error) => {
                return Err(error);
            },
        }
        if column_index >= self.column_count {
            return Err(
                invalid_payload(
                    Fault::MeasuredColumn { column_index, column_count: self.column_count },
                ),
            );
        }
        proof {
            use_type_invariant(self);
            lemma_cell_index(
                self.column_count as int,
                self.row_count as int,
                row_index as int,
                column_index as int,
            );
        }
        let cell_count: usize = self.cell_lengths.len();
        assert(row_index * self.column_count + column_index < cell_count);
        Ok(self.cell_lengths[row_index * self.column_count + column_index])
    }

    /// Lays out a measured row range.
    pub fn range_layout(&self, start_row: usize, row_count: usize) -> (result: Result<RowLayout>)
        ensures
            layout_result(
                result,
                match range_fault(self@, start_row, row_count) {
                    Some(fault) => Err(payload_error(fault)),
                    None => Ok(
                        row_major_layout(
                            self@.cell_lengths,
                            self@.column_count as int,
                            start_row as int,
                            row_count as int,
                        ),
                    ),
                },
            ),
    {
        match self.check_range(start_row, row_count) {
            Ok(()) => {},
            Err(error) => {
                return Err(error);
            },
        }
        proof {
            use_type_invariant(self);
            lemma_range_fits(self@, start_row as int, row_count as int);
            let end = start_row + row_count;
            let columns = self.column_count as int;
            assert(end * columns <= self.row_count * columns) by (nonlinear_arith)
                requires
                    end <= self.row_count,
                    0 <= columns,
            ;
        }
        build_fixed_width_row_range_layout(
            start_row,
            row_count,
            self.column_count,
            self.cell_lengths.as_slice(),
        )
    }

    /// Checks that a row range was measured.
    pub fn check_range(&self, start_row: usize, row_count: usize) -> (result: Result<()>)
        ensures
            outcome(result) == fault_outcome(range_fault(self@, start_row, row_count)),
    {
        let end_row: usize = match start_row.checked_add(row_count) {
            Some(end_row) => end_row,
            None => {
                return Err(invalid_payload(Fault::RangeEndOverflow));
            },
        };
        if end_row > self.row_count {
            return Err(
                invalid_payload(
                    Fault::MeasuredRange {
                        start: start_row,
                        end: end_row,
                        row_count: self.row_count,
                    },
                ),
            );
        }
        Ok(())
    }
}

/// Sums cell lengths to row lengths and to the payload length.
pub fn measure_row_lengths(row_count: usize, column_count: usize, cell_lengths: &[usize]) -> (
    result: Result<(Vec<usize>, usize)>)
    requires
        row_count * column_count <= cell_lengths@.len(),
    ensures
        ({
            let batch = MeasuredView { row_count, column_count, cell_lengths: cell_lengths@ };
            match first_length_fault(batch, 0) {
                Some(fault) => result matches Err(error) && error@ == payload_error(fault),
                None => result matches Ok((row_lengths, payload_len)) && row_lengths@
                    == row_lengths_of(batch, row_count as int) && payload_len == batch.total_len(),
            }
        }),
{
    let ghost batch = MeasuredView { row_count, column_count, cell_lengths: cell_lengths@ };
    let matrix_len: usize = cell_lengths.len();
    let mut row_lengths: Vec<usize> = Vec::new();
    let mut payload_len: usize = 0;
    let mut row_index: usize = 0;
    while row_index < row_count
        invariant
            row_index <= row_count,
            batch == (MeasuredView { row_count, column_count, cell_lengths: cell_lengths@ }),
            row_count * column_count <= matrix_len,
            matrix_len == cell_lengths@.len(),
            first_length_fault(batch, 0) == first_length_fault(batch, row_index as int),
            row_lengths@ == row_lengths_of(batch, row_index as int),
            payload_len == batch.range_len(0, row_index as int),
        decreases row_count - row_index,
    {
        let mut row_len: usize = ROW_TOKEN_LEN;
        let mut column_index: usize = 0;
        while column_index < column_count
            invariant
                column_index <= column_count,
                row_index < row_count,
                batch == (MeasuredView { row_count, column_count, cell_lengths: cell_lengths@ }),
                row_count * column_count <= matrix_len,
                matrix_len == cell_lengths@.len(),
                first_length_fault(batch, 0) == first_length_fault(batch, row_index as int),
                row_len == ROW_TOKEN_LEN + cells_len(
                    cell_lengths@,
                    column_count as int,
                    row_index as int,
                    column_index as int,
                ),
            decreases column_count - column_index,
        {
            proof {
                lemma_cell_index(
                    column_count as int,
                    row_count as int,
                    row_index as int,
                    column_index as int,
                );
                lemma_cells_len_monotone(
                    cell_lengths@,
                    column_count as int,
                    row_index as int,
                    column_index + 1,
                    column_count as int,
                );
            }
            row_len =
            match row_len.checked_add(cell_lengths[row_index * column_count + column_index]) {
                Some(row_len) => row_len,
                None => {
                    return Err(invalid_payload(Fault::MeasuredRowOverflow));
                },
            };
            column_index += 1;
        }
        assert(batch.range_len(0, row_index + 1) == payload_len + row_len);
        payload_len =
        match payload_len.checked_add(row_len) {
            Some(payload_len) => payload_len,
            None => {
                return Err(invalid_payload(Fault::MeasuredPayloadOverflow));
            },
        };
        row_lengths.push(row_len);
        row_index += 1;
        assert(row_lengths@ =~= row_lengths_of(batch, row_index as int));
    }
    Ok((row_lengths, payload_len))
}

/// A measured range is no longer than all rows.
pub proof fn lemma_range_fits(batch: MeasuredView, start: int, count: int)
    requires
        0 <= start,
        0 <= count,
        start + count <= batch.row_count,
    ensures
        0 <= batch.range_len(start, count) <= batch.total_len(),
{
    let lengths = batch.cell_lengths;
    let columns = batch.column_count as int;
    law_range_len_is_additive(batch, 0, start, count);
    lemma_rows_len_monotone(lengths, columns, 0, 0, start);
    lemma_rows_len_monotone(lengths, columns, start, 0, count);
    lemma_rows_len_monotone(lengths, columns, 0, start + count, batch.row_count as int);
}

/// Two adjacent ranges are together as long as the range that they make up.
pub proof fn law_range_len_is_additive(batch: MeasuredView, start: int, first: int, second: int)
    requires
        0 <= first,
        0 <= second,
    ensures
        batch.range_len(start, first + second) == batch.range_len(start, first) + batch.range_len(
            start + first,
            second,
        ),
    decreases second,
{
    if second > 0 {
        law_range_len_is_additive(batch, start, first, second - 1);
    }
}

/// A matrix of cell lengths that has one length per cell is measured exactly when the bytes of all
/// rows can be counted.
pub proof fn law_measured_iff_payload_fits(batch: MeasuredView)
    requires
        batch.row_count * batch.column_count <= usize::MAX,
        batch.cell_lengths.len() == batch.row_count * batch.column_count,
    ensures
        measurement_fault(batch) is None <==> batch.total_len() <= usize::MAX,
{
    lemma_first_length_fault(batch, 0);
}

/// The first length fault from a row on, where the rows before it can be counted.
proof fn lemma_first_length_fault(batch: MeasuredView, row: int)
    requires
        0 <= row <= batch.row_count,
        batch.range_len(0, row) <= usize::MAX,
    ensures
        first_length_fault(batch, row) is None <==> batch.total_len() <= usize::MAX,
    decreases batch.row_count - row,
{
    if row < batch.row_count {
        let lengths = batch.cell_lengths;
        let columns = batch.column_count as int;
        lemma_rows_len_monotone(lengths, columns, 0, row + 1, batch.row_count as int);
        lemma_rows_len_monotone(lengths, columns, 0, 0, row);
        if batch.range_len(0, row + 1) <= usize::MAX {
            lemma_first_length_fault(batch, row + 1);
        }
    }
}

/// The byte limit decides the row ranges: no two splits of a batch satisfy it.
pub proof fn law_row_ranges_are_unique(
    batch: MeasuredView,
    max_payload_bytes: usize,
    one: Seq<MeasuredRowRange>,
    other: Seq<MeasuredRowRange>,
)
    requires
        is_row_partition(batch, max_payload_bytes, one),
        is_row_partition(batch, max_payload_bytes, other),
    ensures
        one == other,
{
    if batch.row_count > 0 {
        if one.len() <= other.len() {
            lemma_row_ranges_agree(batch, max_payload_bytes, one, other, one.len() - 1);
            lemma_starts_increase(batch, max_payload_bytes, other, one.len() - 1, other.len() - 1);
            assert(other[one.len() - 1] == one[one.len() - 1]);
        } else {
            lemma_row_ranges_agree(batch, max_payload_bytes, one, other, other.len() - 1);
            lemma_starts_increase(batch, max_payload_bytes, one, other.len() - 1, one.len() - 1);
            assert(other[other.len() - 1] == one[other.len() - 1]);
        }
        assert(one.len() == other.len());
        lemma_row_ranges_agree(batch, max_payload_bytes, one, other, one.len() - 1);
    }
    assert(one =~= other);
}

/// Ranges of a partition end no later than the rows do, and later ranges start later.
proof fn lemma_starts_increase(
    batch: MeasuredView,
    max_payload_bytes: usize,
    ranges: Seq<MeasuredRowRange>,
    low: int,
    high: int,
)
    requires
        is_row_partition(batch, max_payload_bytes, ranges),
        0 <= low <= high < ranges.len(),
    ensures
        low < high ==> ranges[low].start + ranges[low].len <= ranges[high].start,
        ranges[low].start + ranges[low].len <= ranges[high].start + ranges[high].len,
    decreases high - low,
{
    assert(range_is_full(batch, max_payload_bytes, ranges, low));
    if low < high {
        lemma_starts_increase(batch, max_payload_bytes, ranges, low + 1, high);
        assert(range_is_full(batch, max_payload_bytes, ranges, low + 1));
        assert(range_is_full(batch, max_payload_bytes, ranges, high));
    }
}

/// Two partitions agree on their first ranges.
proof fn lemma_row_ranges_agree(
    batch: MeasuredView,
    max_payload_bytes: usize,
    one: Seq<MeasuredRowRange>,
    other: Seq<MeasuredRowRange>,
    last: int,
)
    requires
        is_row_partition(batch, max_payload_bytes, one),
        is_row_partition(batch, max_payload_bytes, other),
        last < one.len(),
        last < other.len(),
    ensures
        forall|i: int| 0 <= i <= last ==> #[trigger] one[i] == other[i],
    decreases last + 1,
{
    if last >= 0 {
        lemma_row_ranges_agree(batch, max_payload_bytes, one, other, last - 1);
        assert(range_is_full(batch, max_payload_bytes, one, last));
        assert(range_is_full(batch, max_payload_bytes, other, last));
        if last > 0 {
            assert(one[last - 1] == other[last - 1]);
            assert(range_is_full(batch, max_payload_bytes, one, last - 1));
            assert(range_is_full(batch, max_payload_bytes, other, last - 1));
        }
        assert(one[last].start == other[last].start);
        lemma_starts_increase(batch, max_payload_bytes, one, last, one.len() - 1);
        lemma_starts_increase(batch, max_payload_bytes, other, last, other.len() - 1);
        let start = one[last].start as int;
        if one[last].len < other[last].len {
            lemma_rows_len_monotone(
                batch.cell_lengths,
                batch.column_count as int,
                start,
                one[last].len + 1,
                other[last].len as int,
            );
        }
        if other[last].len < one[last].len {
            lemma_rows_len_monotone(
                batch.cell_lengths,
                batch.column_count as int,
                start,
                other[last].len + 1,
                one[last].len as int,
            );
        }
    }
}

} // verus!
