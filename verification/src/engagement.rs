//! When a row-group scan goes through the cache, and where its predicate is applied.
//!
//! Text columns are never cached, and one of them in the projection forces a read of the
//! whole row group. So the cache is engaged only when it can serve every projected column,
//! or when pushing the predicate into decode skips most rows.

use crate::column_type::ColumnType;
use crate::logger::{LogLevel, LogMessage};
use crate::text;
use crate::text::append_truth;
use vstd::prelude::*;
use vstd::string::StringExecFns;

verus! {

/// The columns that a scan touches.
pub struct ScanColumns {
    /// The type of each column of the file schema.
    pub schema: Vec<ColumnType>,
    /// The columns that the predicate refers to; `None` without a predicate.
    pub predicate: Option<Vec<usize>>,
    /// The columns to read; `None` for all. The empty projection reads no column and
    /// only counts rows.
    pub projection: Option<Vec<usize>>,
}

/// What kind of row-group scan is asked for.
#[derive(Debug, Clone, Copy, PartialEq, Eq, Structural)]
pub enum ScanKind {
    /// Only the rows of a selection. The selection is applied during decode, so a
    /// predicate may be applied there too.
    RowSelection {
        /// Fewer rows are candidates than the selectivity threshold says.
        selective: bool,
        /// The caller asks for the predicate to be applied during decode.
        push_predicate: bool,
    },
    /// All rows. The caller masks rows after decode, by position: a predicate applied
    /// during decode would shift them under the mask.
    FullScan,
}

/// Column `idx` exists and is of a type that the cache serves.
pub open spec fn cacheable_column(schema: Seq<ColumnType>, idx: int) -> bool {
    idx < schema.len() && schema[idx].cacheable()
}

/// The cache serves one of the columns.
pub open spec fn some_cacheable(schema: Seq<ColumnType>, columns: Seq<usize>) -> bool {
    exists|i: int| 0 <= i < columns.len() && #[trigger] cacheable_column(schema, columns[i] as int)
}

/// The cache serves all the columns.
pub open spec fn all_cacheable(schema: Seq<ColumnType>, columns: Seq<usize>) -> bool {
    forall|i: int|
        0 <= i < columns.len() ==> #[trigger] cacheable_column(schema, columns[i] as int)
}

/// The predicate refers to some column that the cache serves.
pub open spec fn numeric_predicate(schema: Seq<ColumnType>, predicate: Option<Seq<usize>>) -> bool {
    predicate matches Some(columns) && some_cacheable(schema, columns)
}

/// There is a projection, and the cache serves all its columns.
pub open spec fn all_numeric_projection(
    schema: Seq<ColumnType>,
    projection: Option<Seq<usize>>,
) -> bool {
    projection matches Some(columns) && all_cacheable(schema, columns)
}

/// A list of column indices, where there is one.
pub open spec fn column_list(columns: Option<Vec<usize>>) -> Option<Seq<usize>> {
    match columns {
        Some(columns) => Some(columns@),
        None => None,
    }
}

impl ScanColumns {
    /// The predicate refers to some column that the cache serves.
    pub open spec fn has_numeric_predicate(self) -> bool {
        numeric_predicate(self.schema@, column_list(self.predicate))
    }

    /// There is a projection, and the cache serves all its columns.
    pub open spec fn is_all_numeric(self) -> bool {
        all_numeric_projection(self.schema@, column_list(self.projection))
    }
}

/// The cache is engaged when it is enabled, the scan is of a selection, and either few
/// rows match a predicate that it can evaluate or it can serve every projected column.
pub open spec fn engages(enabled: bool, kind: ScanKind, columns: ScanColumns) -> bool {
    &&& enabled
    &&& kind matches ScanKind::RowSelection { selective, .. } && ((selective
        && columns.has_numeric_predicate()) || columns.is_all_numeric())
}

/// Whether the cache is engaged, with the two column tests that this rests on.
#[derive(Debug, Clone, Copy, PartialEq, Eq, Structural)]
pub struct Engagement {
    /// The predicate refers to a column that the cache serves.
    pub numeric_predicate: bool,
    /// The cache serves every projected column.
    pub all_numeric_projection: bool,
    /// The scan should go through the cache.
    pub use_cache: bool,
}

/// Whether column `idx` exists and is of a type that the cache serves.
fn is_cacheable_column(schema: &Vec<ColumnType>, idx: usize) -> (b: bool)
    ensures
        b == cacheable_column(schema@, idx as int),
{
    idx < schema.len() && schema[idx].is_cacheable()
}

/// Whether the predicate refers to some column that the cache serves.
pub fn has_numeric_predicate(schema: &Vec<ColumnType>, predicate: &Option<Vec<usize>>) -> (b: bool)
    ensures
        b == numeric_predicate(schema@, column_list(*predicate)),
        *predicate is None ==> !b,
        *predicate matches Some(columns) ==> (b <==> exists|i: int|
            0 <= i < columns@.len() && #[trigger] columns@[i] < schema@.len()
                && schema@[columns@[i] as int].cacheable()),
{
    match predicate {
        Some(columns) => {
            let mut i: usize = 0;
            while i < columns.len()
                invariant
                    i <= columns@.len(),
                    column_list(*predicate) == Some(columns@),
                    forall|j: int|
                        0 <= j < i ==> !#[trigger] cacheable_column(schema@, columns@[j] as int),
                decreases columns@.len() - i,
            {
                if is_cacheable_column(schema, columns[i]) {
                    return true;
                }
                i += 1;
            }
            assert forall|j: int| 0 <= j < columns@.len() implies !(#[trigger] columns@[j]
                < schema@.len() && schema@[columns@[j] as int].cacheable()) by {
                assert(!cacheable_column(schema@, columns@[j] as int));
            }
            false
        },
        None => false,
    }
}

/// Whether there is a projection all of whose columns the cache serves.
pub fn is_all_numeric_projection(schema: &Vec<ColumnType>, projection: &Option<Vec<usize>>) -> (b:
    bool)
    ensures
        b == all_numeric_projection(schema@, column_list(*projection)),
        *projection is None ==> !b,
        *projection matches Some(columns) ==> (b <==> forall|i: int|
            0 <= i < columns@.len() ==> #[trigger] columns@[i] < schema@.len()
                && schema@[columns@[i] as int].cacheable()),
{
    match projection {
        Some(columns) => {
            let mut i: usize = 0;
            while i < columns.len()
                invariant
                    i <= columns@.len(),
                    column_list(*projection) == Some(columns@),
                    forall|j: int|
                        0 <= j < i ==> #[trigger] cacheable_column(schema@, columns@[j] as int),
                decreases columns@.len() - i,
            {
                if !is_cacheable_column(schema, columns[i]) {
                    return false;
                }
                i += 1;
            }
            assert forall|j: int| 0 <= j < columns@.len() implies #[trigger] columns@[j]
                < schema@.len() && schema@[columns@[j] as int].cacheable() by {
                assert(cacheable_column(schema@, columns@[j] as int));
            }
            true
        },
        None => false,
    }
}

/// Decides whether a scan should go through the cache.
pub fn engagement(enabled: bool, kind: ScanKind, columns: &ScanColumns) -> (engagement: Engagement)
    ensures
        engagement.numeric_predicate == columns.has_numeric_predicate(),
        engagement.all_numeric_projection == columns.is_all_numeric(),
        engagement.use_cache == engages(enabled, kind, *columns),
        columns.predicate is None ==> !engagement.numeric_predicate,
        columns.predicate matches Some(list) ==> (engagement.numeric_predicate <==> exists|i: int|
            0 <= i < list@.len() && #[trigger] list@[i] < columns.schema@.len()
                && columns.schema@[list@[i] as int].cacheable()),
        columns.projection is None ==> !engagement.all_numeric_projection,
        columns.projection matches Some(list) ==> (engagement.all_numeric_projection <==> forall|
            i: int,
        |
            0 <= i < list@.len() ==> #[trigger] list@[i] < columns.schema@.len()
                && columns.schema@[list@[i] as int].cacheable()),
        kind is FullScan || !enabled ==> !engagement.use_cache,
        kind matches ScanKind::RowSelection { selective, .. } ==> {
            &&& enabled && engagement.all_numeric_projection ==> engagement.use_cache
            &&& enabled && selective && engagement.numeric_predicate ==> engagement.use_cache
            &&& engagement.use_cache ==> engagement.all_numeric_projection || (selective
                && engagement.numeric_predicate)
        },
{
    let numeric_predicate = has_numeric_predicate(&columns.schema, &columns.predicate);
    let all_numeric_projection = is_all_numeric_projection(&columns.schema, &columns.projection);
    let use_cache = match kind {
        ScanKind::RowSelection { selective, .. } => enabled && ((selective && numeric_predicate)
            || all_numeric_projection),
        ScanKind::FullScan => false,
    };
    Engagement { numeric_predicate, all_numeric_projection, use_cache }
}

/// How the source of a scan is set up.
#[derive(Debug, Clone, Copy, PartialEq, Eq, Structural)]
pub struct SourcePlan {
    /// Read through the cache.
    pub through_cache: bool,
    /// Hand the predicate to the source, to be applied and reordered during decode.
    pub with_predicate: bool,
}

/// The set-up of a source. Only a scan of a selection goes through the cache. The predicate
/// then always goes along, so that the cache decodes the predicate columns first and skips
/// rows that do not match. Otherwise it goes along when the scan is of a selection and the
/// caller asked for it.
pub open spec fn source_plan(
    use_cache: bool,
    cache_present: bool,
    kind: ScanKind,
    has_predicate: bool,
) -> SourcePlan {
    match kind {
        ScanKind::RowSelection { push_predicate, .. } => SourcePlan {
            through_cache: use_cache && cache_present,
            with_predicate: has_predicate && ((use_cache && cache_present) || push_predicate),
        },
        ScanKind::FullScan => SourcePlan { through_cache: false, with_predicate: false },
    }
}

/// Decides how the source of a scan is set up, once it is known whether there is a cache.
pub fn plan_source(use_cache: bool, cache_present: bool, kind: ScanKind, has_predicate: bool) -> (plan:
    SourcePlan)
    ensures
        plan == source_plan(use_cache, cache_present, kind, has_predicate),
        kind is FullScan ==> !plan.through_cache && !plan.with_predicate,
        kind matches ScanKind::RowSelection { push_predicate, .. } ==> {
            &&& plan.through_cache <==> use_cache && cache_present
            &&& plan.through_cache ==> plan.with_predicate == has_predicate
            &&& !plan.through_cache ==> plan.with_predicate == (has_predicate && push_predicate)
        },
{
    match kind {
        ScanKind::RowSelection { push_predicate, .. } => {
            let through_cache = use_cache && cache_present;
            SourcePlan {
                through_cache,
                with_predicate: has_predicate && (through_cache || push_predicate),
            }
        },
        ScanKind::FullScan => SourcePlan { through_cache: false, with_predicate: false },
    }
}

/// How the file of a scan is read.
pub struct ReadSettings {
    /// Let the page index of the file prune pages. It knows nothing of the rows that an
    /// access plan was made from.
    pub page_index: bool,
    /// The columns to read; `None` for all.
    pub projection: Option<Vec<usize>>,
}

/// The settings of every scan: no page index, and the projection as it was given. An empty
/// projection stays empty: rows are counted by the access plan, and no column is read.
pub fn read_settings(columns: &ScanColumns) -> (settings: ReadSettings)
    ensures
        !settings.page_index,
        column_list(settings.projection) == column_list(columns.projection),
        settings.projection is Some <==> columns.projection is Some,
        settings.projection matches Some(list) ==> list@ == columns.projection->0@,
{
    let projection = match &columns.projection {
        Some(list) => {
            let copy = list.clone();
            assert(copy@ =~= list@);
            Some(copy)
        },
        None => None,
    };
    ReadSettings { page_index: false, projection }
}

/// The report on how a scan was decided.
pub open spec fn decision_text(
    enabled: bool,
    selectivity: Seq<char>,
    engagement: Engagement,
    file: Seq<char>,
) -> Seq<char> {
    "[parquet_bridge] gate: lc_enabled="@ + text::truth(enabled)
        + ", selectivity="@ + selectivity
        + ", numeric_pred="@ + text::truth(engagement.numeric_predicate)
        + ", all_numeric_proj="@ + text::truth(engagement.all_numeric_projection)
        + ", use_lc="@ + text::truth(engagement.use_cache)
        + ", file="@ + file
}

/// The message that reports how a scan was decided. `selectivity` is the fraction of
/// candidate rows as it should appear, in three decimals.
pub fn decision_message(enabled: bool, selectivity: &str, engagement: &Engagement, file: &str) -> (message:
    LogMessage)
    ensures
        message.content() == (
            LogLevel::Info,
            decision_text(enabled, selectivity@, *engagement, file@),
        ),
        message.level is Info,
        message.text@ == "[parquet_bridge] gate: lc_enabled="@ + text::truth(enabled)
            + ", selectivity="@ + selectivity@
            + ", numeric_pred="@ + text::truth(engagement.numeric_predicate)
            + ", all_numeric_proj="@ + text::truth(engagement.all_numeric_projection)
            + ", use_lc="@ + text::truth(engagement.use_cache)
            + ", file="@ + file@,
{
    let mut text = String::new();
    append_truth(&mut text, "[parquet_bridge] gate: lc_enabled=", enabled);
    text.append(", selectivity=");
    text.append(selectivity);
    append_truth(&mut text, ", numeric_pred=", engagement.numeric_predicate);
    append_truth(&mut text, ", all_numeric_proj=", engagement.all_numeric_projection);
    append_truth(&mut text, ", use_lc=", engagement.use_cache);
    text.append(", file=");
    text.append(file);
    assert(text@ =~= decision_text(enabled, selectivity@, *engagement, file@));
    LogMessage { level: LogLevel::Info, text }
}

/// The report on a scan that goes through the cache.
pub open spec fn engaged_text(selectivity: Seq<char>, all_numeric_projection: bool) -> Seq<char> {
    "[parquet_bridge] LC ENGAGED: selectivity="@ + selectivity + ", all_numeric="@ + text::truth(
        all_numeric_projection,
    )
}

/// The message for a scan that goes through the cache; `None` for one that does not.
pub fn engaged_message(plan: &SourcePlan, selectivity: &str, engagement: &Engagement) -> (message:
    Option<LogMessage>)
    ensures
        match message {
            Some(m) => plan.through_cache && m.content() == (
                LogLevel::Info,
                engaged_text(selectivity@, engagement.all_numeric_projection),
            ),
            None => !plan.through_cache,
        },
        message is Some <==> plan.through_cache,
        message matches Some(m) ==> m.level is Info && m.text@
            == "[parquet_bridge] LC ENGAGED: selectivity="@ + selectivity@ + ", all_numeric="@
            + text::truth(engagement.all_numeric_projection),
{
    if !plan.through_cache {
        return None;
    }
    let mut text = "[parquet_bridge] LC ENGAGED: selectivity=".to_owned();
    text.append(selectivity);
    append_truth(&mut text, ", all_numeric=", engagement.all_numeric_projection);
    Some(LogMessage { level: LogLevel::Info, text })
}

/// The set-up that the two decisions come to together.
pub open spec fn scan_plan(
    enabled: bool,
    cache_present: bool,
    kind: ScanKind,
    columns: ScanColumns,
) -> SourcePlan {
    source_plan(engages(enabled, kind, columns), cache_present, kind, columns.predicate is Some)
}

/// A full scan bypasses the cache, and its predicate is never applied during decode,
/// whatever was decided about the cache.
pub proof fn full_scan_decodes_every_row(use_cache: bool, cache_present: bool, has_predicate: bool)
    ensures
        source_plan(use_cache, cache_present, ScanKind::FullScan, has_predicate) == (SourcePlan {
            through_cache: false,
            with_predicate: false,
        }),
{
}

/// With the cache disabled or absent, a scan reads the file directly, and the predicate is
/// applied during decode exactly when the caller asked for it on a selection.
pub proof fn without_cache_the_caller_decides(
    enabled: bool,
    cache_present: bool,
    selective: bool,
    push_predicate: bool,
    columns: ScanColumns,
)
    requires
        !enabled || !cache_present,
    ensures
        scan_plan(
            enabled,
            cache_present,
            ScanKind::RowSelection { selective, push_predicate },
            columns,
        ) == (SourcePlan {
            through_cache: false,
            with_predicate: push_predicate && columns.predicate is Some,
        }),
{
}

/// A scan that projects a column which the cache does not serve goes through the cache only
/// when it is selective and its predicate refers to a column that the cache serves; the
/// predicate is then applied during decode.
pub proof fn uncacheable_projection_needs_a_selective_predicate(
    enabled: bool,
    cache_present: bool,
    kind: ScanKind,
    columns: ScanColumns,
)
    requires
        !columns.is_all_numeric(),
        scan_plan(enabled, cache_present, kind, columns).through_cache,
    ensures
        kind matches ScanKind::RowSelection { selective, .. } && selective,
        columns.has_numeric_predicate(),
        scan_plan(enabled, cache_present, kind, columns).with_predicate,
{
}

/// The empty projection counts as served by the cache: there is no column to decode.
pub proof fn empty_projection_is_served(schema: Seq<ColumnType>)
    ensures
        all_numeric_projection(schema, Some(Seq::<usize>::empty())),
{
}

/// The order in which the columns of a predicate or a projection are listed, and how often,
/// does not matter.
pub proof fn column_order_does_not_matter(
    schema: Seq<ColumnType>,
    a: Seq<usize>,
    b: Seq<usize>,
)
    requires
        forall|column: usize| a.contains(column) <==> b.contains(column),
    ensures
        numeric_predicate(schema, Some(a)) == numeric_predicate(schema, Some(b)),
        all_numeric_projection(schema, Some(a)) == all_numeric_projection(schema, Some(b)),
{
    lemma_same_columns(schema, a, b);
    lemma_same_columns(schema, b, a);
}

proof fn lemma_same_columns(schema: Seq<ColumnType>, a: Seq<usize>, b: Seq<usize>)
    requires
        forall|column: usize| a.contains(column) <==> b.contains(column),
    ensures
        some_cacheable(schema, a) ==> some_cacheable(schema, b),
        all_cacheable(schema, a) ==> all_cacheable(schema, b),
{
    if some_cacheable(schema, a) {
        let i = choose|i: int|
            0 <= i < a.len() && #[trigger] cacheable_column(schema, a[i] as int);
        assert(a.contains(a[i]));
        let j = choose|j: int| 0 <= j < b.len() && b[j] == a[i];
        assert(cacheable_column(schema, b[j] as int));
    }
    if all_cacheable(schema, a) {
        assert forall|j: int| 0 <= j < b.len() implies #[trigger] cacheable_column(
            schema,
            b[j] as int,
        ) by {
            assert(b.contains(b[j]));
            let i = choose|i: int| 0 <= i < a.len() && a[i] == b[j];
            assert(cacheable_column(schema, a[i] as int));
        }
    }
}

/// An enabled cache is engaged for every scan of a selection whose projected columns it serves,
/// whatever the predicate and the selectivity.
pub proof fn a_served_projection_engages(kind: ScanKind, columns: ScanColumns)
    requires
        kind is RowSelection,
        columns.projection is Some,
        forall|i: int|
            0 <= i < columns.projection->0@.len() ==> #[trigger] columns.projection->0@[i]
                < columns.schema@.len()
                && columns.schema@[columns.projection->0@[i] as int].cacheable(),
    ensures
        columns.is_all_numeric(),
        engages(true, kind, columns),
{
    let list = columns.projection->0@;
    assert forall|i: int| 0 <= i < list.len() implies #[trigger] cacheable_column(
        columns.schema@,
        list[i] as int,
    ) by {
        assert(list[i] < columns.schema@.len());
    }
}

/// An enabled cache is engaged for every selective scan of a selection whose predicate refers
/// to a column that it serves, whatever is projected.
pub proof fn a_selective_served_predicate_engages(push_predicate: bool, columns: ScanColumns, i: int)
    requires
        columns.predicate is Some,
        0 <= i < columns.predicate->0@.len(),
        columns.predicate->0@[i] < columns.schema@.len(),
        columns.schema@[columns.predicate->0@[i] as int].cacheable(),
    ensures
        columns.has_numeric_predicate(),
        engages(true, ScanKind::RowSelection { selective: true, push_predicate }, columns),
{
    assert(cacheable_column(columns.schema@, columns.predicate->0@[i] as int));
}

/// The cache is engaged for nothing else: not when disabled, not on a full scan, and not when a
/// projected column is not served unless the scan is selective and a column of its predicate
/// is.
pub proof fn nothing_else_engages(enabled: bool, kind: ScanKind, columns: ScanColumns)
    requires
        engages(enabled, kind, columns),
    ensures
        enabled,
        kind is RowSelection,
        ({
            ||| columns.projection is Some && forall|i: int|
                0 <= i < columns.projection->0@.len() ==> #[trigger] columns.projection->0@[i]
                    < columns.schema@.len()
                    && columns.schema@[columns.projection->0@[i] as int].cacheable()
            ||| kind->selective && columns.predicate is Some && exists|i: int|
                0 <= i < columns.predicate->0@.len() && #[trigger] columns.predicate->0@[i]
                    < columns.schema@.len()
                    && columns.schema@[columns.predicate->0@[i] as int].cacheable()
        }),
{
    if columns.is_all_numeric() {
        let list = columns.projection->0@;
        assert forall|i: int| 0 <= i < list.len() implies #[trigger] list[i] < columns.schema@.len()
            && columns.schema@[list[i] as int].cacheable() by {
            assert(cacheable_column(columns.schema@, list[i] as int));
        }
    } else {
        let list = columns.predicate->0@;
        let i = choose|i: int|
            0 <= i < list.len() && #[trigger] cacheable_column(columns.schema@, list[i] as int);
        assert(list[i] < columns.schema@.len());
    }
}

/// A more selective scan never disengages the cache, and whether the caller asks for the
/// predicate to be pushed makes no difference to it.
pub proof fn selective_scans_engage_no_less(selective: bool, push_predicate: bool, columns: ScanColumns)
    ensures
        engages(true, ScanKind::RowSelection { selective: false, push_predicate }, columns)
            ==> engages(true, ScanKind::RowSelection { selective: true, push_predicate }, columns),
        engages(true, ScanKind::RowSelection { selective, push_predicate }, columns) == engages(
            true,
            ScanKind::RowSelection { selective, push_predicate: !push_predicate },
            columns,
        ),
{
}

/// A scan through the cache carries its predicate exactly when it has one, selective or not and
/// asked for or not; one that is read directly carries it exactly when that was asked for.
pub proof fn a_cached_scan_carries_its_predicate(
    use_cache: bool,
    cache_present: bool,
    selective: bool,
    push_predicate: bool,
    has_predicate: bool,
)
    ensures
        ({
            let plan = source_plan(
                use_cache,
                cache_present,
                ScanKind::RowSelection { selective, push_predicate },
                has_predicate,
            );
            &&& plan.through_cache <==> use_cache && cache_present
            &&& use_cache && cache_present ==> plan.with_predicate == has_predicate
            &&& !(use_cache && cache_present) ==> plan.with_predicate == (has_predicate
                && push_predicate)
        }),
{
}

/// A predicate that was asked to be pushed into decode is never dropped, cache or no cache.
pub proof fn an_asked_for_predicate_is_carried(
    use_cache: bool,
    cache_present: bool,
    selective: bool,
)
    ensures
        source_plan(
            use_cache,
            cache_present,
            ScanKind::RowSelection { selective, push_predicate: true },
            true,
        ).with_predicate,
{
}

} // verus!
