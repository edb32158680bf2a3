use vstd::prelude::*;
use vstd::string::*;
use crate::array::{cell_of, converts, ArrayBuilderImpl, ArrayImpl, ConvertError, DataType, DataTypeKind, Scalar};
use crate::chunk::DataChunk;
use crate::plan::{FileFormat, PhysicalCopyFromFile};

verus! {

#[verifier::external_type_specification]
#[verifier::external_body]
pub struct ExProgressBar(indicatif::ProgressBar);

/// Relies on indicatif's `ProgressBar::hidden`: a bar that draws nothing.
pub assume_specification[ indicatif::ProgressBar::hidden ]() -> indicatif::ProgressBar;

/// Relies on indicatif's `ProgressBar::new`: a bar whose length is `len`.
pub assume_specification[ indicatif::ProgressBar::new ](len: u64) -> indicatif::ProgressBar;

/// Relies on indicatif's `ProgressBar::set_position`: moves the bar, nothing else.
pub assume_specification[ indicatif::ProgressBar::set_position ](bar: &indicatif::ProgressBar, pos: u64);

/// Relies on indicatif's `ProgressBar::finish`: marks the bar done, nothing else.
pub assume_specification[ indicatif::ProgressBar::finish ](bar: &indicatif::ProgressBar);

/// Why a load failed; the first error stops it and no chunk comes out.
#[derive(Debug, PartialEq)]
pub enum ExecutorError {
    /// The file could not be read.
    Io(String),
    /// The delimited text could not be decoded into records.
    Csv(String),
    /// A record had `actual` fields where `expected` were due.
    LengthMismatch { expected: usize, actual: usize },
    /// An empty field stood in a column that admits no null.
    NotNullable,
    /// A field was no value of its column's kind.
    Convert(ConvertError),
}

/// The records a reader produced, each field as its text.
pub open spec fn records_view(recs: Seq<Vec<String>>) -> Seq<Seq<Seq<char>>> {
    recs.map_values(|r: Vec<String>| r@.map_values(|s: String| s@))
}

/// What the `csv` crate reads from `data` in the given format: the records
/// before the first error (the header left out where `header` is set), and
/// whether an error ended the reading.
pub uninterp spec fn csv_records(
    data: Seq<u8>,
    delimiter: char,
    quote: char,
    escape: Option<char>,
    header: bool,
) -> (Seq<Seq<Seq<char>>>, bool);

/// Relies on `csv::ReaderBuilder` (delimiter, quote, escape, has_headers, each
/// character taken as its low byte) and `Reader::records`: the records read
/// from `data` until the first error or the end, the byte offset after each,
/// and that error's message.
#[verifier::external_body]
fn read_csv_records(data: &[u8], delimiter: char, quote: char, escape: Option<char>, header: bool) -> (r: (
    Vec<Vec<String>>,
    Vec<u64>,
    Option<String>,
))
    ensures
        records_view(r.0@) == csv_records(data@, delimiter, quote, escape, header).0,
        r.2 is Some <==> csv_records(data@, delimiter, quote, escape, header).1,
{
    let mut reader = csv::ReaderBuilder::new().delimiter(delimiter as u8).quote(quote as u8).escape(
        escape.map(|c| c as u8),
    ).has_headers(header).from_reader(data);
    let (mut records, mut ends) = (Vec::new(), Vec::new());
    let mut iter = reader.records();
    while let Some(record) = iter.next() {
        match record {
            Ok(record) => records.push(record.iter().map(String::from).collect()),
            Err(e) => return (records, ends, Some(e.to_string())),
        }
        ends.push(iter.reader().position().byte());
    }
    (records, ends, None)
}

/// What a file of `data` decodes to in `format`.
pub open spec fn decoded(format: FileFormat, data: Seq<u8>) -> (Seq<Seq<Seq<char>>>, bool) {
    match format {
        FileFormat::Csv { delimiter, quote, escape, header } => csv_records(data, delimiter, quote, escape, header),
    }
}

/// `n` fields, or `n + 1` of which the last is empty (one trailing delimiter).
pub open spec fn arity_ok(n: int, rec: Seq<Seq<char>>) -> bool {
    rec.len() == n || (rec.len() == n + 1 && rec[n].len() == 0)
}

/// A field that its column takes: not empty where the column admits no null,
/// and a value of the column's kind.
pub open spec fn field_ok(ty: DataType, s: Seq<char>) -> bool {
    (ty.nullable || s.len() > 0) && converts(ty.kind, s)
}

/// The first column from `j` on whose field in `rec` is refused; `types.len()` if none.
pub open spec fn first_bad_field(types: Seq<DataType>, rec: Seq<Seq<char>>, j: int) -> int
    decreases types.len() - j,
{
    if j < 0 || j >= types.len() {
        types.len() as int
    } else if !field_ok(types[j], rec[j]) {
        j
    } else {
        first_bad_field(types, rec, j + 1)
    }
}

/// A record of the right arity whose every field its column takes.
pub open spec fn record_ok(types: Seq<DataType>, rec: Seq<Seq<char>>) -> bool {
    arity_ok(types.len() as int, rec) && first_bad_field(types, rec, 0) == types.len()
}

/// The first record from `i` on that is refused; `recs.len()` if none.
pub open spec fn first_bad_record(types: Seq<DataType>, recs: Seq<Seq<Seq<char>>>, i: int) -> int
    decreases recs.len() - i,
{
    if i < 0 || i >= recs.len() {
        recs.len() as int
    } else if !record_ok(types, recs[i]) {
        i
    } else {
        first_bad_record(types, recs, i + 1)
    }
}

/// `e` is the error that the refused record `rec` gives: the arity first, then
/// the first refused field, by its emptiness, then by its kind.
pub open spec fn record_error(types: Seq<DataType>, rec: Seq<Seq<char>>, e: ExecutorError) -> bool {
    if !arity_ok(types.len() as int, rec) {
        e == ExecutorError::LengthMismatch { expected: types.len() as usize, actual: rec.len() as usize }
    } else {
        let j = first_bad_field(types, rec, 0);
        if !types[j].nullable && rec[j].len() == 0 {
            e == ExecutorError::NotNullable
        } else {
            e matches ExecutorError::Convert(c) && c.text@ == rec[j] && c.kind == types[j].kind
        }
    }
}

/// The cells that column `j` of kind `kind` gets from `recs`.
pub open spec fn column_cells(kind: DataTypeKind, recs: Seq<Seq<Seq<char>>>, j: int) -> Seq<Option<Scalar>> {
    recs.map_values(|r: Seq<Seq<char>>| cell_of(kind, r[j]))
}

/// `c` holds one column per type, in order, each with the cells of `recs`.
pub open spec fn loaded(types: Seq<DataType>, recs: Seq<Seq<Seq<char>>>, c: DataChunk) -> bool {
    &&& c.wf()
    &&& c.columns().len() == types.len()
    &&& forall|j: int|
        0 <= j < types.len() ==> (#[trigger] c.columns()[j]).kind() == types[j].kind && c.columns()[j].cells()
            == column_cells(types[j].kind, recs, j)
}

/// The result of loading the records `recs` into columns of `types`, where
/// `failed` says that decoding stopped on an error after them.
pub open spec fn ingest_outcome(
    types: Seq<DataType>,
    recs: Seq<Seq<Seq<char>>>,
    failed: bool,
    r: Result<DataChunk, ExecutorError>,
) -> bool {
    let k = first_bad_record(types, recs, 0);
    if k < recs.len() {
        r matches Err(e) && record_error(types, recs[k], e)
    } else if failed {
        r matches Err(ExecutorError::Csv(_))
    } else {
        r matches Ok(c) && loaded(types, recs, c)
    }
}

/// A record is accepted on its arity exactly when it has as many fields as
/// there are columns, or one more that is empty; any other record fails the
/// load with a length mismatch that gives the true expected and actual counts.
pub proof fn lemma_record_arity(types: Seq<DataType>, rec: Seq<Seq<char>>, r: Result<DataChunk, ExecutorError>)
    requires
        ingest_outcome(types, seq![rec], false, r),
    ensures
        arity_ok(types.len() as int, rec) <==> (rec.len() == types.len() || (rec.len() == types.len() + 1
            && rec[types.len() as int].len() == 0)),
        !arity_ok(types.len() as int, rec) ==> r == Err::<DataChunk, ExecutorError>(
            ExecutorError::LengthMismatch { expected: types.len() as usize, actual: rec.len() as usize },
        ),
        record_ok(types, rec) ==> r is Ok,
{
    let recs = seq![rec];
    assert(recs[0] == rec);
    reveal_with_fuel(first_bad_record, 2);
}

/// An empty field fails the load with `NotNullable` in a column that admits no
/// null (where no field before it failed), and loads as a null in one that does.
pub proof fn lemma_empty_field(
    types: Seq<DataType>,
    rec: Seq<Seq<char>>,
    j: int,
    r: Result<DataChunk, ExecutorError>,
)
    requires
        ingest_outcome(types, seq![rec], false, r),
        arity_ok(types.len() as int, rec),
        0 <= j < types.len(),
        rec[j].len() == 0,
    ensures
        !types[j].nullable && first_bad_field(types, rec, 0) == j ==> r == Err::<DataChunk, ExecutorError>(
            ExecutorError::NotNullable,
        ),
        r matches Ok(c) ==> c.columns()[j].cells() == seq![None::<Scalar>],
{
    let recs = seq![rec];
    assert(recs[0] == rec);
    reveal_with_fuel(first_bad_record, 2);
    if r is Ok {
        assert(column_cells(types[j].kind, recs, j) =~= seq![None::<Scalar>]);
    }
}

/// Files from this size on (1 MiB) show a progress bar.
pub const PROGRESS_MIN_BYTES: u64 = 1048576;

/// Records between two progress updates.
pub const PROGRESS_INTERVAL: usize = 1000;

/// Whether a file of `size` bytes shows progress.
pub fn shows_progress(size: u64) -> (r: bool)
    ensures
        r == (size >= PROGRESS_MIN_BYTES),
{
    size >= PROGRESS_MIN_BYTES
}

/// Loads decoded records into one chunk of `column_types`. `ends` holds the byte
/// offset after each record, for `progress`; `failure` is the message of the
/// decoding error that came after the records, if one did.
pub fn ingest_records(
    column_types: &Vec<DataType>,
    records: &Vec<Vec<String>>,
    ends: &Vec<u64>,
    failure: Option<String>,
    progress: &indicatif::ProgressBar,
) -> (r: Result<DataChunk, ExecutorError>)
    ensures
        ingest_outcome(column_types@, records_view(records@), failure is Some, r),
        first_bad_record(column_types@, records_view(records@), 0) == records@.len() && failure is Some
            ==> r == Err::<DataChunk, ExecutorError>(ExecutorError::Csv(failure->0)),
{
    let ghost types = column_types@;
    let ghost rv = records_view(records@);
    let n = column_types.len();
    let mut builders: Vec<ArrayBuilderImpl> = Vec::new();
    let mut j: usize = 0;
    while j < n
        invariant
            n == types.len(),
            types == column_types@,
            j <= n,
            builders@.len() == j,
            forall|k: int|
                0 <= k < j ==> (#[trigger] builders@[k]).kind() == types[k].kind && builders@[k].cells()
                    == column_cells(types[k].kind, rv.take(0), k),
        decreases n - j,
    {
        let b = ArrayBuilderImpl::new(&column_types[j]);
        proof {
            assert(column_cells(types[j as int].kind, rv.take(0), j as int) =~= Seq::<Option<Scalar>>::empty());
        }
        builders.push(b);
        j = j + 1;
    }
    let mut i: usize = 0;
    while i < records.len()
        invariant
            n == types.len(),
            types == column_types@,
            rv == records_view(records@),
            i <= records@.len(),
            builders@.len() == n,
            forall|k: int|
                0 <= k < n ==> (#[trigger] builders@[k]).kind() == types[k].kind && builders@[k].cells()
                    == column_cells(types[k].kind, rv.take(i as int), k),
            first_bad_record(types, rv, 0) == first_bad_record(types, rv, i as int),
        decreases records@.len() - i,
    {
        if i > 0 && i % PROGRESS_INTERVAL == 0 && i - 1 < ends.len() {
            progress.set_position(ends[i - 1]);
        }
        let rec = &records[i];
        let ghost rec_v = rv[i as int];
        assert(rec_v == rec@.map_values(|s: String| s@));
        let arity_fits = rec.len() == n || (rec.len() > n && rec.len() - n == 1 && rec[n].unicode_len() == 0);
        if !arity_fits {
            return Err(ExecutorError::LengthMismatch { expected: n, actual: rec.len() });
        }
        let ghost before = builders@;
        let mut j: usize = 0;
        while j < n
            invariant
                n == types.len(),
                types == column_types@,
                rv == records_view(records@),
                i < records@.len(),
                rec == records@[i as int],
                rec_v == rv[i as int],
                rec_v == rec@.map_values(|s: String| s@),
                arity_ok(n as int, rec_v),
                j <= n,
                builders@.len() == n,
                forall|k: int|
                    0 <= k < n ==> (#[trigger] builders@[k]).kind() == types[k].kind,
                forall|k: int|
                    0 <= k < j ==> (#[trigger] builders@[k]).cells() == column_cells(
                        types[k].kind,
                        rv.take(i + 1),
                        k,
                    ),
                forall|k: int|
                    j <= k < n ==> (#[trigger] builders@[k]).cells() == column_cells(types[k].kind, rv.take(i as int), k),
                first_bad_field(types, rec_v, 0) == first_bad_field(types, rec_v, j as int),
                first_bad_record(types, rv, 0) == first_bad_record(types, rv, i as int),
            decreases n - j,
        {
            let s = rec[j].as_str();
            assert(s@ == rec_v[j as int]);
            if !column_types[j].nullable && s.unicode_len() == 0 {
                return Err(ExecutorError::NotNullable);
            }
            let ghost old_cells = builders@[j as int].cells();
            match builders[j].push_str(s) {
                Ok(()) => {},
                Err(e) => {
                    return Err(ExecutorError::Convert(e));
                },
            }
            proof {
                assert(column_cells(types[j as int].kind, rv.take(i + 1), j as int) =~= column_cells(
                    types[j as int].kind,
                    rv.take(i as int),
                    j as int,
                ).push(cell_of(types[j as int].kind, s@)));
            }
            j = j + 1;
        }
        i = i + 1;
    }
    progress.finish();
    assert(rv.take(i as int) =~= rv);
    if let Some(message) = failure {
        return Err(ExecutorError::Csv(message));
    }
    let ghost full = builders@;
    let mut arrays: Vec<ArrayImpl> = Vec::new();
    while builders.len() > 0
        invariant
            n == types.len(),
            arrays@.len() + builders@.len() == n,
            builders@ == full.subrange(arrays@.len() as int, n as int),
            full.len() == n,
            forall|k: int|
                0 <= k < n ==> (#[trigger] full[k]).kind() == types[k].kind && full[k].cells() == column_cells(
                    types[k].kind,
                    rv,
                    k,
                ),
            forall|k: int|
                0 <= k < arrays@.len() ==> (#[trigger] arrays@[k]).kind() == full[k].kind() && arrays@[k].cells()
                    == full[k].cells(),
        decreases builders@.len(),
    {
        let b = builders.remove(0);
        assert(b == full[arrays@.len() as int]);
        arrays.push(b.finish());
        assert(builders@ =~= full.subrange(arrays@.len() as int, n as int));
    }
    let chunk = DataChunk::from_equal_arrays(arrays);
    Ok(chunk)
}

/// Loads one delimited-text file into one chunk of the plan's column types.
pub struct CopyFromFileExecutor {
    pub plan: PhysicalCopyFromFile,
}

impl CopyFromFileExecutor {
    /// Decodes the file's bytes `data` in the plan's format and loads them.
    /// Reading the file is the caller's part.
    pub fn load(&self, data: &Vec<u8>) -> (r: Result<DataChunk, ExecutorError>)
        ensures
            ingest_outcome(
                self.plan.column_types@,
                decoded(self.plan.format, data@).0,
                decoded(self.plan.format, data@).1,
                r,
            ),
    {
        let size = data.len() as u64;
        let progress = if shows_progress(size) {
            indicatif::ProgressBar::new(size)
        } else {
            indicatif::ProgressBar::hidden()
        };
        let (records, ends, failure) = match self.plan.format {
            FileFormat::Csv { delimiter, quote, escape, header } => read_csv_records(
                data.as_slice(),
                delimiter,
                quote,
                escape,
                header,
            ),
        };
        ingest_records(&self.plan.column_types, &records, &ends, failure, &progress)
    }
}

} // verus!
