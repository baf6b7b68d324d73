//! Settlement repositories: the storage kinds and the CSV repository's files.

use std::path::PathBuf;

use vstd::prelude::*;

verus! {

#[verifier::external_type_specification]
#[verifier::external_body]
pub struct ExPathBuf(PathBuf);

/// Storage kind of a settlement repository.
#[derive(Debug, Clone, Copy, PartialEq, Eq, Structural)]
pub enum RepositoryType {
    /// In memory.
    Memory,
    /// CSV files.
    Csv,
    /// SQLite (reserved).
    Sqlite,
}

/// Chinese name of each storage kind.
pub open spec fn repository_type_zh(t: RepositoryType) -> Seq<char> {
    match t {
        RepositoryType::Memory => "内存"@,
        RepositoryType::Csv => "CSV"@,
        RepositoryType::Sqlite => "SQLite"@,
    }
}

impl RepositoryType {
    /// Chinese name.
    pub fn as_zh(&self) -> (s: &'static str)
        ensures
            s@ == repository_type_zh(*self),
    {
        match self {
            RepositoryType::Memory => "内存",
            RepositoryType::Csv => "CSV",
            RepositoryType::Sqlite => "SQLite",
        }
    }
}

/// CSV-file repository: fills, settlement results and ledger entries each go
/// to their own file.
pub struct CsvRepository {
    fills_csv: PathBuf,
    settlements_csv: PathBuf,
    ledger_csv: PathBuf,
}

impl CsvRepository {
    /// The fills file.
    pub closed spec fn fills_path(&self) -> PathBuf {
        self.fills_csv
    }

    /// The settlement-results file.
    pub closed spec fn settlements_path(&self) -> PathBuf {
        self.settlements_csv
    }

    /// The ledger file.
    pub closed spec fn ledger_path(&self) -> PathBuf {
        self.ledger_csv
    }

    /// A repository over the three given files.
    pub fn new(fills_csv: PathBuf, settlements_csv: PathBuf, ledger_csv: PathBuf) -> (r: Self)
        ensures
            r.fills_path() == fills_csv,
            r.settlements_path() == settlements_csv,
            r.ledger_path() == ledger_csv,
    {
        CsvRepository { fills_csv, settlements_csv, ledger_csv }
    }

    /// The fills file.
    pub fn fills_csv(&self) -> (r: &PathBuf)
        ensures
            *r == self.fills_path(),
    {
        &self.fills_csv
    }

    /// The settlement-results file.
    pub fn settlements_csv(&self) -> (r: &PathBuf)
        ensures
            *r == self.settlements_path(),
    {
        &self.settlements_csv
    }

    /// The ledger file.
    pub fn ledger_csv(&self) -> (r: &PathBuf)
        ensures
            *r == self.ledger_path(),
    {
        &self.ledger_csv
    }

    /// Storage kind.
    pub fn repo_type(&self) -> (r: RepositoryType)
        ensures
            r == RepositoryType::Csv,
    {
        RepositoryType::Csv
    }
}

} // verus!
