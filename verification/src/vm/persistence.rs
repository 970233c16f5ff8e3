//! Records of virtual machines and the database rows that hold them.
use crate::ids;
use crate::text;
use crate::vm::{VmConfig, VmState};
use vstd::prelude::*;

verus! {

/// What the database answers when it fails.
#[derive(Debug)]
pub enum DatabaseError {
    RowNotFound,
    Other(String),
}

/// Why a record could not be stored or read.
#[derive(Debug)]
pub enum PersistenceError {
    Database(DatabaseError),
    Migration(String),
    Decode(String),
    Encode(String),
    InvalidStateString(String),
}

impl PersistenceError {
    /// What the error reads as.
    pub open spec fn text(self) -> Seq<char> {
        match self {
            PersistenceError::Database(_) => "A database error occurred"@,
            PersistenceError::Migration(_) => "Database migration failed"@,
            PersistenceError::Decode(_) => "Failed to decode VmConfig blob"@,
            PersistenceError::Encode(_) => "Failed to encode VmConfig blob"@,
            PersistenceError::InvalidStateString(s) => "Invalid state string '"@ + s@
                + "' in database"@,
        }
    }

    /// The error's text.
    pub fn message(&self) -> (r: String)
        ensures
            r@ == self.text(),
    {
        match self {
            PersistenceError::Database(_) => "A database error occurred".to_owned(),
            PersistenceError::Migration(_) => "Database migration failed".to_owned(),
            PersistenceError::Decode(_) => "Failed to decode VmConfig blob".to_owned(),
            PersistenceError::Encode(_) => "Failed to encode VmConfig blob".to_owned(),
            PersistenceError::InvalidStateString(s) => text::cat3(
                "Invalid state string '",
                s.as_str(),
                "' in database",
            ),
        }
    }
}

/// What a virtual machine is doing.
#[derive(Debug)]
pub struct VmStatus {
    pub state: VmState,
    pub last_msg: String,
    pub process_id: Option<i64>,
}

/// What the service keeps of a virtual machine.
#[derive(Debug)]
pub struct VmRecord {
    pub vm_id: u128,
    pub image_uuid: u128,
    pub status: VmStatus,
    pub config: VmConfig,
}

/// A row of the table of virtual machines. The configuration is held as a blob,
/// which is written and read apart from the other columns.
#[derive(Debug)]
pub struct DbVmRow {
    pub vm_id: u128,
    pub image_uuid: u128,
    pub state: String,
    pub last_msg: String,
    pub pid: Option<i64>,
}

/// The text that stands for a state in the database.
pub open spec fn state_text(state: VmState) -> Seq<char> {
    match state {
        VmState::Creating => "VM_STATE_CREATING"@,
        VmState::Created => "VM_STATE_CREATED"@,
        VmState::Running => "VM_STATE_RUNNING"@,
        VmState::Paused => "VM_STATE_PAUSED"@,
        VmState::Stopped => "VM_STATE_STOPPED"@,
        VmState::Crashed => "VM_STATE_CRASHED"@,
        VmState::Unspecified => "VM_STATE_UNSPECIFIED"@,
    }
}

/// The state that a text stands for in the database.
pub open spec fn state_of(s: Seq<char>) -> Option<VmState> {
    if s == state_text(VmState::Creating) {
        Some(VmState::Creating)
    } else if s == state_text(VmState::Created) {
        Some(VmState::Created)
    } else if s == state_text(VmState::Running) {
        Some(VmState::Running)
    } else if s == state_text(VmState::Paused) {
        Some(VmState::Paused)
    } else if s == state_text(VmState::Stopped) {
        Some(VmState::Stopped)
    } else if s == state_text(VmState::Crashed) {
        Some(VmState::Crashed)
    } else if s == state_text(VmState::Unspecified) {
        Some(VmState::Unspecified)
    } else {
        None
    }
}

/// Reads a state from the database.
pub fn string_to_vm_state(s: &str) -> (r: Result<VmState, String>)
    ensures
        match state_of(s@) {
            Some(state) => r == Ok::<VmState, String>(state),
            None => r matches Err(m) && m@ == "Invalid state string '"@ + s@ + "' in database"@,
        },
{
    if text::same(s, "VM_STATE_CREATING") {
        Ok(VmState::Creating)
    } else if text::same(s, "VM_STATE_CREATED") {
        Ok(VmState::Created)
    } else if text::same(s, "VM_STATE_RUNNING") {
        Ok(VmState::Running)
    } else if text::same(s, "VM_STATE_PAUSED") {
        Ok(VmState::Paused)
    } else if text::same(s, "VM_STATE_STOPPED") {
        Ok(VmState::Stopped)
    } else if text::same(s, "VM_STATE_CRASHED") {
        Ok(VmState::Crashed)
    } else if text::same(s, "VM_STATE_UNSPECIFIED") {
        Ok(VmState::Unspecified)
    } else {
        Err(text::cat3("Invalid state string '", s, "' in database"))
    }
}

/// Writes a state for the database: its name in upper case, after a prefix.
pub fn vm_state_to_string(state: VmState) -> (r: &'static str)
    ensures
        r@ == state_text(state),
{
    match state {
        VmState::Creating => "VM_STATE_CREATING",
        VmState::Created => "VM_STATE_CREATED",
        VmState::Running => "VM_STATE_RUNNING",
        VmState::Paused => "VM_STATE_PAUSED",
        VmState::Stopped => "VM_STATE_STOPPED",
        VmState::Crashed => "VM_STATE_CRASHED",
        VmState::Unspecified => "VM_STATE_UNSPECIFIED",
    }
}

/// Every state is read back as it was written.
pub proof fn written_state_reads_back(state: VmState)
    ensures
        state_of(state_text(state)) == Some(state),
{
    reveal_strlit("VM_STATE_CREATING");
    reveal_strlit("VM_STATE_CREATED");
    reveal_strlit("VM_STATE_RUNNING");
    reveal_strlit("VM_STATE_PAUSED");
    reveal_strlit("VM_STATE_STOPPED");
    reveal_strlit("VM_STATE_CRASHED");
    reveal_strlit("VM_STATE_UNSPECIFIED");
    assert("VM_STATE_CREATING"@.len() == 17);
    assert("VM_STATE_PAUSED"@.len() == 15);
    assert("VM_STATE_UNSPECIFIED"@.len() == 20);
    assert("VM_STATE_CREATED"@.len() == 16 && "VM_STATE_RUNNING"@.len() == 16
        && "VM_STATE_STOPPED"@.len() == 16 && "VM_STATE_CRASHED"@.len() == 16);
    assert("VM_STATE_CREATED"@[11] == 'E' && "VM_STATE_RUNNING"@[11] == 'N'
        && "VM_STATE_STOPPED"@[11] == 'O' && "VM_STATE_CRASHED"@[11] == 'A');
}

/// A text that is read as a state is the text that the state is written as.
pub proof fn read_state_was_written(s: Seq<char>)
    ensures
        match state_of(s) {
            Some(state) => s == state_text(state),
            None => forall|state: VmState| s != #[trigger] state_text(state),
        },
{
    if state_of(s) is None {
        assert forall|state: VmState| s != #[trigger] state_text(state) by {
            written_state_reads_back(state);
        }
    }
}

/// The record that a row and its configuration stand for.
pub open spec fn row_record(row: DbVmRow, config: VmConfig) -> VmRecord {
    VmRecord {
        vm_id: row.vm_id,
        image_uuid: row.image_uuid,
        status: VmStatus {
            state: state_of(row.state@)->Some_0,
            last_msg: row.last_msg,
            process_id: row.pid,
        },
        config,
    }
}

/// Whether a row and its configuration can be read as a record.
pub open spec fn row_readable(row: DbVmRow, config: Result<VmConfig, String>) -> bool {
    config is Ok && state_of(row.state@) is Some
}

/// Whether a row holds a record, apart from its configuration.
pub open spec fn row_stores(row: DbVmRow, record: VmRecord) -> bool {
    &&& row.vm_id == record.vm_id
    &&& row.image_uuid == record.image_uuid
    &&& row.state@ == state_text(record.status.state)
    &&& row.last_msg == record.status.last_msg
    &&& row.pid == record.status.process_id
}

/// What reading a row gives: the record, or why its configuration or its state
/// cannot be read.
pub open spec fn row_reads(
    row: DbVmRow,
    config: Result<VmConfig, String>,
    r: Result<VmRecord, String>,
) -> bool {
    match config {
        Err(e) => r matches Err(m) && m@ == "Failed to decode VmConfig blob: "@ + e@,
        Ok(c) => match state_of(row.state@) {
            None => r matches Err(m) && m@ == "Invalid state string '"@ + row.state@
                + "' in database"@,
            Some(_) => r == Ok::<VmRecord, String>(row_record(row, c)),
        },
    }
}

/// What a row that cannot be read makes of a list.
pub open spec fn row_spoils(row: DbVmRow, config: Result<VmConfig, String>, e: String) -> bool {
    match config {
        Err(why) => e@ == "Failed to decode VmConfig blob for vm_id "@ + ids::hyphenated(row.vm_id)
            + ": "@ + why@,
        Ok(_) => state_of(row.state@) is None && e@ == "Invalid state string '"@ + row.state@
            + "' in database"@,
    }
}

/// What reading a list of rows gives: all records in order, or what is wrong with
/// the first row that cannot be read.
pub open spec fn rows_read(
    rows: Seq<(DbVmRow, Result<VmConfig, String>)>,
    r: Result<Vec<VmRecord>, String>,
) -> bool {
    match r {
        Ok(records) => {
            &&& records@.len() == rows.len()
            &&& forall|i: int|
                0 <= i < rows.len() ==> row_readable((#[trigger] rows[i]).0, rows[i].1)
                    && records@[i] == row_record(rows[i].0, rows[i].1->Ok_0)
        },
        Err(e) => exists|k: int|
            0 <= k < rows.len() && (forall|i: int|
                0 <= i < k ==> row_readable((#[trigger] rows[i]).0, rows[i].1)) && row_spoils(
                (#[trigger] rows[k]).0,
                rows[k].1,
                e,
            ),
    }
}

/// The database of virtual machines, as far as rows and records go.
pub struct VmRepository;

impl VmRepository {
    /// The row that a record is stored as.
    pub fn save_vm(record: &VmRecord) -> (row: DbVmRow)
        ensures
            row_stores(row, *record),
    {
        DbVmRow {
            vm_id: record.vm_id,
            image_uuid: record.image_uuid,
            state: vm_state_to_string(record.status.state).to_owned(),
            last_msg: record.status.last_msg.clone(),
            pid: record.status.process_id,
        }
    }

    /// What looking a virtual machine up gives, from the row that was found, if any.
    pub fn get_vm(row: Option<(DbVmRow, Result<VmConfig, String>)>) -> (r: Result<
        Option<VmRecord>,
        String,
    >)
        ensures
            match row {
                None => r == Ok::<Option<VmRecord>, String>(None),
                Some((row, config)) => match r {
                    Err(e) => row_reads(row, config, Err(e)),
                    Ok(None) => false,
                    Ok(Some(record)) => row_reads(row, config, Ok(record)),
                },
            },
    {
        match row {
            None => Ok(None),
            Some((row, config)) => match config {
                Err(e) => Err(text::cat2("Failed to decode VmConfig blob: ", e.as_str())),
                Ok(config) => match string_to_vm_state(row.state.as_str()) {
                    Err(e) => Err(e),
                    Ok(state) => Ok(
                        Some(
                            VmRecord {
                                vm_id: row.vm_id,
                                image_uuid: row.image_uuid,
                                status: VmStatus {
                                    state,
                                    last_msg: row.last_msg,
                                    process_id: row.pid,
                                },
                                config,
                            },
                        ),
                    ),
                },
            },
        }
    }

    /// The records of all rows, in order, or what is wrong with the first row that
    /// cannot be read.
    pub fn list_all_vms(rows: Vec<(DbVmRow, Result<VmConfig, String>)>) -> (r: Result<
        Vec<VmRecord>,
        String,
    >)
        ensures
            rows_read(rows@, r),
    {
        let mut records: Vec<VmRecord> = Vec::new();
        let ghost all = rows@;
        let mut rest = rows;
        while rest.len() > 0
            invariant
                all == rows@,
                records@.len() + rest@.len() == all.len(),
                rest@ == all.skip(records@.len() as int),
                forall|i: int|
                    0 <= i < records@.len() ==> row_readable((#[trigger] all[i]).0, all[i].1)
                        && records@[i] == row_record(all[i].0, all[i].1->Ok_0),
            decreases rest@.len(),
        {
            let ghost k = records@.len() as int;
            assert(rest@[0] == all[k]);
            let (row, config) = rest.remove(0);
            let config = match config {
                Ok(c) => c,
                Err(e) => {
                    let id = ids::id_text(row.vm_id);
                    let m = text::cat4(
                        "Failed to decode VmConfig blob for vm_id ",
                        id.as_str(),
                        ": ",
                        e.as_str(),
                    );
                    assert(row_spoils(all[k].0, all[k].1, m));
                    return Err(m);
                },
            };
            let state = match string_to_vm_state(row.state.as_str()) {
                Ok(state) => state,
                Err(e) => {
                    assert(row_spoils(all[k].0, all[k].1, e));
                    return Err(e);
                },
            };
            records.push(
                VmRecord {
                    vm_id: row.vm_id,
                    image_uuid: row.image_uuid,
                    status: VmStatus { state, last_msg: row.last_msg, process_id: row.pid },
                    config,
                },
            );
            assert(rest@ =~= all.skip(k + 1));
        }
        Ok(records)
    }
}

/// A stored record is read back as it was: reading the row that a record is stored
/// as, with the record's configuration, gives the record.
pub proof fn stored_vm_reads_back(record: VmRecord, row: DbVmRow, r: Result<VmRecord, String>)
    requires
        row_stores(row, record),
        row_reads(row, Ok(record.config), r),
    ensures
        r == Ok::<VmRecord, String>(record),
{
    written_state_reads_back(record.status.state);
}

} // verus!
