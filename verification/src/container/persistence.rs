//! Container records and the database rows that hold them.
use crate::container::{ContainerConfig, ContainerState};
use crate::ids;
use crate::text;
use vstd::prelude::*;

verus! {

/// What the database answers when it fails.
#[derive(Debug)]
pub enum DatabaseError {
    RowNotFound,
    Other(String),
}

/// Why a record could not be stored or read.
#[derive(Debug)]
pub enum PersistenceError {
    Database(DatabaseError),
    Migration(String),
    Decode(String),
    Encode(String),
    InvalidStateString(String),
}

impl PersistenceError {
    /// What the error reads as.
    pub open spec fn text(self) -> Seq<char> {
        match self {
            PersistenceError::Database(_) => "A database error occurred"@,
            PersistenceError::Migration(_) => "Database migration failed"@,
            PersistenceError::Decode(_) => "Failed to decode ContainerConfig blob"@,
            PersistenceError::Encode(_) => "Failed to encode ContainerConfig blob"@,
            PersistenceError::InvalidStateString(s) => "Invalid state string '"@ + s@
                + "' in database"@,
        }
    }

    /// The error's text.
    pub fn message(&self) -> (r: String)
        ensures
            r@ == self.text(),
    {
        match self {
            PersistenceError::Database(_) => "A database error occurred".to_owned(),
            PersistenceError::Migration(_) => "Database migration failed".to_owned(),
            PersistenceError::Decode(_) => "Failed to decode ContainerConfig blob".to_owned(),
            PersistenceError::Encode(_) => "Failed to encode ContainerConfig blob".to_owned(),
            PersistenceError::InvalidStateString(s) => text::cat3(
                "Invalid state string '",
                s.as_str(),
                "' in database",
            ),
        }
    }
}

/// What a container is doing.
#[derive(Clone, Copy, Debug)]
pub struct ContainerStatus {
    pub state: ContainerState,
    pub process_id: Option<i64>,
}

/// What the service keeps of a container.
#[derive(Debug)]
pub struct ContainerRecord {
    pub container_id: u128,
    pub image_uuid: u128,
    pub status: ContainerStatus,
    pub config: ContainerConfig,
}

/// A row of the table of containers. The configuration is held as a blob, which
/// is written and read apart from the other columns.
#[derive(Debug)]
pub struct DbContainerRow {
    pub container_id: String,
    pub image_uuid: String,
    pub state: String,
    pub pid: Option<i64>,
}

/// The text that stands for a state in the database.
pub open spec fn state_text(state: ContainerState) -> Seq<char> {
    match state {
        ContainerState::PullingImage => "PULLING_IMAGE"@,
        ContainerState::Created => "CREATED"@,
        ContainerState::Running => "RUNNING"@,
        ContainerState::Stopped => "STOPPED"@,
        ContainerState::Unspecified => "CONTAINER_STATE_UNSPECIFIED"@,
    }
}

/// The state that a text stands for in the database.
pub open spec fn state_of(s: Seq<char>) -> Option<ContainerState> {
    if s == state_text(ContainerState::PullingImage) {
        Some(ContainerState::PullingImage)
    } else if s == state_text(ContainerState::Created) {
        Some(ContainerState::Created)
    } else if s == state_text(ContainerState::Running) {
        Some(ContainerState::Running)
    } else if s == state_text(ContainerState::Stopped) {
        Some(ContainerState::Stopped)
    } else if s == state_text(ContainerState::Unspecified) {
        Some(ContainerState::Unspecified)
    } else {
        None
    }
}

/// Reads a state from the database.
pub fn string_to_container_state(s: &str) -> (r: Result<ContainerState, PersistenceError>)
    ensures
        match state_of(s@) {
            Some(state) => r == Ok::<ContainerState, PersistenceError>(state),
            None => r matches Err(PersistenceError::InvalidStateString(t)) && t@ == s@,
        },
{
    if text::same(s, "PULLING_IMAGE") {
        Ok(ContainerState::PullingImage)
    } else if text::same(s, "CREATED") {
        Ok(ContainerState::Created)
    } else if text::same(s, "RUNNING") {
        Ok(ContainerState::Running)
    } else if text::same(s, "STOPPED") {
        Ok(ContainerState::Stopped)
    } else if text::same(s, "CONTAINER_STATE_UNSPECIFIED") {
        Ok(ContainerState::Unspecified)
    } else {
        Err(PersistenceError::InvalidStateString(s.to_owned()))
    }
}

/// Writes a state for the database.
pub fn container_state_to_string(state: ContainerState) -> (r: &'static str)
    ensures
        r@ == state_text(state),
{
    match state {
        ContainerState::PullingImage => "PULLING_IMAGE",
        ContainerState::Created => "CREATED",
        ContainerState::Running => "RUNNING",
        ContainerState::Stopped => "STOPPED",
        ContainerState::Unspecified => "CONTAINER_STATE_UNSPECIFIED",
    }
}

/// Every state is read back as it was written.
pub proof fn written_state_reads_back(state: ContainerState)
    ensures
        state_of(state_text(state)) == Some(state),
{
    reveal_strlit("PULLING_IMAGE");
    reveal_strlit("CREATED");
    reveal_strlit("RUNNING");
    reveal_strlit("STOPPED");
    reveal_strlit("CONTAINER_STATE_UNSPECIFIED");
    assert("PULLING_IMAGE"@.len() == 13);
    assert("CONTAINER_STATE_UNSPECIFIED"@.len() == 27);
    assert("CREATED"@.len() == 7 && "RUNNING"@.len() == 7 && "STOPPED"@.len() == 7);
    assert("CREATED"@[0] != "RUNNING"@[0]);
    assert("CREATED"@[0] != "STOPPED"@[0]);
    assert("RUNNING"@[0] != "STOPPED"@[0]);
}

/// A text that is read as a state is the text that the state is written as.
pub proof fn read_state_was_written(s: Seq<char>)
    ensures
        match state_of(s) {
            Some(state) => s == state_text(state),
            None => forall|state: ContainerState| s != #[trigger] state_text(state),
        },
{
    if state_of(s) is None {
        assert forall|state: ContainerState| s != #[trigger] state_text(state) by {
            written_state_reads_back(state);
        }
    }
}

/// Whether the identifiers of a row can be read.
pub open spec fn row_has_ids(row: DbContainerRow) -> bool {
    ids::uuid_parsed(row.container_id@) is Ok && ids::uuid_parsed(row.image_uuid@) is Ok
}

/// The record that a readable row and its configuration stand for.
pub open spec fn row_record(row: DbContainerRow, config: ContainerConfig) -> ContainerRecord {
    ContainerRecord {
        container_id: ids::uuid_parsed(row.container_id@)->Ok_0,
        image_uuid: ids::uuid_parsed(row.image_uuid@)->Ok_0,
        status: ContainerStatus {
            state: state_of(row.state@)->Some_0,
            process_id: row.pid,
        },
        config,
    }
}

/// What reading a row gives: the error of its configuration, the error of its
/// state, nothing where an identifier is malformed, or the record.
pub open spec fn row_reads(
    row: DbContainerRow,
    config: Result<ContainerConfig, PersistenceError>,
    r: Option<Result<ContainerRecord, PersistenceError>>,
) -> bool {
    match config {
        Err(e) => r == Some(Err::<ContainerRecord, PersistenceError>(e)),
        Ok(c) => match state_of(row.state@) {
            None => r matches Some(Err(PersistenceError::InvalidStateString(t))) && t@
                == row.state@,
            Some(_) => if row_has_ids(row) {
                r == Some(Ok::<ContainerRecord, PersistenceError>(row_record(row, c)))
            } else {
                r is None
            },
        },
    }
}

/// Whether a row and its configuration can be read as a record.
pub open spec fn row_readable(
    row: DbContainerRow,
    config: Result<ContainerConfig, PersistenceError>,
) -> bool {
    config is Ok && state_of(row.state@) is Some && row_has_ids(row)
}

/// What reading a list of rows gives: all records in order, or what the first row
/// that cannot be read gives.
pub open spec fn rows_read(
    rows: Seq<(DbContainerRow, Result<ContainerConfig, PersistenceError>)>,
    r: Option<Result<Vec<ContainerRecord>, PersistenceError>>,
) -> bool {
    match r {
        Some(Ok(records)) => {
            &&& records@.len() == rows.len()
            &&& forall|i: int|
                0 <= i < rows.len() ==> row_readable((#[trigger] rows[i]).0, rows[i].1)
                    && records@[i] == row_record(rows[i].0, rows[i].1->Ok_0)
        },
        Some(Err(e)) => exists|k: int|
            0 <= k < rows.len() && (forall|i: int|
                0 <= i < k ==> row_readable((#[trigger] rows[i]).0, rows[i].1)) && row_reads(
                (#[trigger] rows[k]).0,
                rows[k].1,
                Some(Err(e)),
            ),
        None => exists|k: int|
            0 <= k < rows.len() && (forall|i: int|
                0 <= i < k ==> row_readable((#[trigger] rows[i]).0, rows[i].1)) && row_reads(
                (#[trigger] rows[k]).0,
                rows[k].1,
                None,
            ),
    }
}

/// Whether a row holds a record, apart from its configuration.
pub open spec fn row_stores(row: DbContainerRow, record: ContainerRecord) -> bool {
    &&& row.container_id@ == ids::hyphenated(record.container_id)
    &&& row.image_uuid@ == ids::hyphenated(record.image_uuid)
    &&& ids::reads_as(row.container_id@, record.container_id)
    &&& ids::reads_as(row.image_uuid@, record.image_uuid)
    &&& row.state@ == state_text(record.status.state)
    &&& row.pid == record.status.process_id
}

/// The container database, as far as rows and records go.
pub struct ContainerRepository;

impl ContainerRepository {
    /// The row that a record is stored as.
    pub fn save_container(record: &ContainerRecord) -> (row: DbContainerRow)
        ensures
            row_stores(row, *record),
    {
        DbContainerRow {
            container_id: ids::id_text(record.container_id),
            image_uuid: ids::id_text(record.image_uuid),
            state: container_state_to_string(record.status.state).to_owned(),
            pid: record.status.process_id,
        }
    }

    /// The record that a row stands for; nothing where an identifier in it is
    /// malformed.
    pub fn record_of(
        row: DbContainerRow,
        config: Result<ContainerConfig, PersistenceError>,
    ) -> (r: Option<Result<ContainerRecord, PersistenceError>>)
        ensures
            row_reads(row, config, r),
    {
        let config = match config {
            Ok(c) => c,
            Err(e) => {
                return Some(Err(e));
            },
        };
        let state = match string_to_container_state(row.state.as_str()) {
            Ok(s) => s,
            Err(e) => {
                return Some(Err(e));
            },
        };
        match (ids::id_of(row.container_id.as_str()), ids::id_of(row.image_uuid.as_str())) {
            (Ok(container_id), Ok(image_uuid)) => Some(
                Ok(
                    ContainerRecord {
                        container_id,
                        image_uuid,
                        status: ContainerStatus { state, process_id: row.pid },
                        config,
                    },
                ),
            ),
            _ => None,
        }
    }

    /// What looking a container up gives, from the row that was found, if any.
    pub fn get_container(
        row: Option<(DbContainerRow, Result<ContainerConfig, PersistenceError>)>,
    ) -> (r: Option<Result<Option<ContainerRecord>, PersistenceError>>)
        ensures
            match row {
                None => r == Some(Ok::<Option<ContainerRecord>, PersistenceError>(None)),
                Some((row, config)) => match r {
                    None => row_reads(row, config, None),
                    Some(Err(e)) => row_reads(row, config, Some(Err(e))),
                    Some(Ok(None)) => false,
                    Some(Ok(Some(record))) => row_reads(row, config, Some(Ok(record))),
                },
            },
    {
        match row {
            None => Some(Ok(None)),
            Some((row, config)) => match Self::record_of(row, config) {
                None => None,
                Some(Err(e)) => Some(Err(e)),
                Some(Ok(record)) => Some(Ok(Some(record))),
            },
        }
    }

    /// The records of all rows, in order; nothing where the first row that cannot
    /// be read has a malformed identifier.
    pub fn list_all_containers(
        rows: Vec<(DbContainerRow, Result<ContainerConfig, PersistenceError>)>,
    ) -> (r: Option<Result<Vec<ContainerRecord>, PersistenceError>>)
        ensures
            rows_read(rows@, r),
    {
        let mut records: Vec<ContainerRecord> = Vec::new();
        let ghost all = rows@;
        let mut rest = rows;
        while rest.len() > 0
            invariant
                all == rows@,
                records@.len() + rest@.len() == all.len(),
                rest@ == all.skip(records@.len() as int),
                forall|i: int|
                    0 <= i < records@.len() ==> row_readable((#[trigger] all[i]).0, all[i].1)
                        && records@[i] == row_record(all[i].0, all[i].1->Ok_0),
            decreases rest@.len(),
        {
            let ghost k = records@.len() as int;
            assert(rest@[0] == all[k]);
            let (row, config) = rest.remove(0);
            match Self::record_of(row, config) {
                None => {
                    return None;
                },
                Some(Err(e)) => {
                    return Some(Err(e));
                },
                Some(Ok(record)) => {
                    records.push(record);
                },
            }
            assert(rest@ =~= all.skip(k + 1));
        }
        Some(Ok(records))
    }
}

/// A stored record is read back as it was: reading the row that a record is stored
/// as, with the record's configuration, gives the record.
pub proof fn stored_container_reads_back(
    record: ContainerRecord,
    row: DbContainerRow,
    r: Option<Result<ContainerRecord, PersistenceError>>,
)
    requires
        row_stores(row, record),
        row_reads(row, Ok(record.config), r),
    ensures
        r == Some(Ok::<ContainerRecord, PersistenceError>(record)),
{
    written_state_reads_back(record.status.state);
}

} // verus!
