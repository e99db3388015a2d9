//! The settings of a run: which keys a configuration has to hold, and the
//! values read under them.

use vstd::prelude::*;

verus! {

/// A key that the configuration of a run has to hold.
#[derive(Clone, Copy, Debug, PartialEq, Eq, Structural)]
pub enum SettingKey {
    /// The folder under which the generation job writes, one folder per run date.
    Source,
    /// The folder under which the archives are kept.
    Destination,
    /// Where the database is reached.
    DatabaseUrl,
    /// The file of the generation job.
    JobFile,
    /// The stored procedure that prepares the result table.
    ProcedureName,
}

impl SettingKey {
    /// The key as it stands in a configuration.
    pub open spec fn spec_name(self) -> Seq<char> {
        match self {
            SettingKey::Source => "paths.source"@,
            SettingKey::Destination => "paths.destination"@,
            SettingKey::DatabaseUrl => "database.url"@,
            SettingKey::JobFile => "paths.jar_file"@,
            SettingKey::ProcedureName => "paths.procedure_name"@,
        }
    }

    /// The key as it stands in a configuration.
    pub fn name(self) -> (name: &'static str)
        ensures
            name@ == self.spec_name(),
    {
        match self {
            SettingKey::Source => "paths.source",
            SettingKey::Destination => "paths.destination",
            SettingKey::DatabaseUrl => "database.url",
            SettingKey::JobFile => "paths.jar_file",
            SettingKey::ProcedureName => "paths.procedure_name",
        }
    }
}

/// Why a configuration gives no settings.
#[derive(Clone, Copy, Debug, PartialEq, Eq, Structural)]
pub enum SettingsError {
    /// No usable value stands under `key`.
    Missing { key: SettingKey },
}

/// The values of a run's configuration.
#[derive(Clone, Debug)]
pub struct Settings {
    pub source: String,
    pub destination: String,
    pub database_url: String,
    pub job_file: String,
    pub procedure_name: String,
}

/// The first key without a value, in the order source, destination, database,
/// job file, procedure; `None` where every key has one.
pub open spec fn first_missing(
    source: bool,
    destination: bool,
    database_url: bool,
    job_file: bool,
    procedure_name: bool,
) -> Option<SettingKey> {
    if !source {
        Some(SettingKey::Source)
    } else if !destination {
        Some(SettingKey::Destination)
    } else if !database_url {
        Some(SettingKey::DatabaseUrl)
    } else if !job_file {
        Some(SettingKey::JobFile)
    } else if !procedure_name {
        Some(SettingKey::ProcedureName)
    } else {
        None
    }
}

impl Settings {
    /// The settings made of the values read under the five keys, each `None`
    /// where the configuration holds no usable value. All five are required:
    /// the error names the first that is missing.
    pub fn from_values(
        source: Option<String>,
        destination: Option<String>,
        database_url: Option<String>,
        job_file: Option<String>,
        procedure_name: Option<String>,
    ) -> (settings: Result<Settings, SettingsError>)
        ensures
            match first_missing(
                source is Some,
                destination is Some,
                database_url is Some,
                job_file is Some,
                procedure_name is Some,
            ) {
                Some(key) => settings == Err::<Settings, SettingsError>(
                    SettingsError::Missing { key },
                ),
                None => settings matches Ok(s) && s.source@ == source->0@ && s.destination@
                    == destination->0@ && s.database_url@ == database_url->0@ && s.job_file@
                    == job_file->0@ && s.procedure_name@ == procedure_name->0@,
            },
    {
        let source = match source {
            Some(value) => value,
            None => { return Err(SettingsError::Missing { key: SettingKey::Source }); },
        };
        let destination = match destination {
            Some(value) => value,
            None => { return Err(SettingsError::Missing { key: SettingKey::Destination }); },
        };
        let database_url = match database_url {
            Some(value) => value,
            None => { return Err(SettingsError::Missing { key: SettingKey::DatabaseUrl }); },
        };
        let job_file = match job_file {
            Some(value) => value,
            None => { return Err(SettingsError::Missing { key: SettingKey::JobFile }); },
        };
        let procedure_name = match procedure_name {
            Some(value) => value,
            None => { return Err(SettingsError::Missing { key: SettingKey::ProcedureName }); },
        };
        Ok(Settings { source, destination, database_url, job_file, procedure_name })
    }
}

} // verus!
