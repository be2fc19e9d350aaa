//! The errors that the library reports.

use vstd::prelude::*;

verus! {

/// Why a configuration was refused or a run could not go on.
#[derive(Clone, Copy, Debug, PartialEq, Eq, Structural)]
pub enum SmartnessError {
    /// Neither a number of cycles nor a running time is configured.
    CyclesOrRunningTimeRequired,
    /// No statement for write operations is configured.
    WriteScriptRequired,
    /// No statement for read operations is configured.
    ReadScriptRequired,
    /// The startup step is enabled and one of its three statements is missing.
    StartuptScriptsRequired,
    /// The warm-up step is enabled without a number of operations.
    WarmupQtyOpsRequired,
    /// No host of the data store is configured.
    CassandraHostRequired,
    /// No port of the data store is configured.
    CassandraPortRequired,
    /// The user name or the password for the data store is missing.
    CassandraUsernameAndPasswordAreRequired,
    /// The rate is not positive, or the reads are not between zero and the rate.
    RatioParametersInvalid,
    /// The dataset could not be rewound to its first data row.
    DatasetRewindError,
}

impl SmartnessError {
    /// The text of `message`, as a sequence of characters.
    pub open spec fn message_spec(self) -> Seq<char> {
        match self {
            SmartnessError::CyclesOrRunningTimeRequired => "it is required set cycles or running_time"@,
            SmartnessError::WriteScriptRequired => "it is required set write_script"@,
            SmartnessError::ReadScriptRequired => "it is required set read_script"@,
            SmartnessError::StartuptScriptsRequired => "it is required set startup_create_schema_script and startup_drop_table_script and startup_create_table_script"@,
            SmartnessError::WarmupQtyOpsRequired => "it is required set warmup_qty_ops"@,
            SmartnessError::CassandraHostRequired => "it is required set cassandra_host"@,
            SmartnessError::CassandraPortRequired => "it is required set cassandra_port"@,
            SmartnessError::CassandraUsernameAndPasswordAreRequired => "it is required set cassandra_username and cassandra_password"@,
            SmartnessError::RatioParametersInvalid => "it is required set tasks_per_sec above zero and reads_rate between zero and one"@,
            SmartnessError::DatasetRewindError => "failed to rewind dataset file"@,
        }
    }

    /// A one-line description of the error for the user.
    pub fn message(&self) -> (text: String)
        ensures
            text@ == self.message_spec(),
    {
        match self {
            SmartnessError::CyclesOrRunningTimeRequired => "it is required set cycles or running_time".to_owned(),
            SmartnessError::WriteScriptRequired => "it is required set write_script".to_owned(),
            SmartnessError::ReadScriptRequired => "it is required set read_script".to_owned(),
            SmartnessError::StartuptScriptsRequired => "it is required set startup_create_schema_script and startup_drop_table_script and startup_create_table_script".to_owned(),
            SmartnessError::WarmupQtyOpsRequired => "it is required set warmup_qty_ops".to_owned(),
            SmartnessError::CassandraHostRequired => "it is required set cassandra_host".to_owned(),
            SmartnessError::CassandraPortRequired => "it is required set cassandra_port".to_owned(),
            SmartnessError::CassandraUsernameAndPasswordAreRequired => "it is required set cassandra_username and cassandra_password".to_owned(),
            SmartnessError::RatioParametersInvalid => "it is required set tasks_per_sec above zero and reads_rate between zero and one".to_owned(),
            SmartnessError::DatasetRewindError => "failed to rewind dataset file".to_owned(),
        }
    }
}

} // verus!
