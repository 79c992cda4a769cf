//! The category families of a task. Each variant has an ordinal, which is
//! the only thing storage holds of it, and a label, which is only ever shown.
//! The ordinals follow the declaration order and must stay as they are once
//! rows have been written.

use vstd::prelude::*;
use crate::error::{Family, TaskError};

verus! {

/// How pressing a task is.
#[derive(Debug, Clone, Copy, PartialEq, Eq, Structural, PartialOrd, Ord, Hash)]
pub enum Priority {
    ToBeDefined,
    VeryUrgent,
    Urgent,
    Normal,
    NotUrgent,
}

impl Priority {
    /// Number of variants; the ordinals are the integers below it.
    pub const COUNT: u8 = 5;

    /// The ordinal under which the variant is stored.
    pub open spec fn spec_ordinal(self) -> int {
        match self {
            Priority::ToBeDefined => 0,
            Priority::VeryUrgent => 1,
            Priority::Urgent => 2,
            Priority::Normal => 3,
            Priority::NotUrgent => 4,
        }
    }

    /// The variant stored under `n`, if there is one.
    pub open spec fn spec_from_ordinal(n: int) -> Option<Priority> {
        if n == 0 {
            Some(Priority::ToBeDefined)
        } else if n == 1 {
            Some(Priority::VeryUrgent)
        } else if n == 2 {
            Some(Priority::Urgent)
        } else if n == 3 {
            Some(Priority::Normal)
        } else if n == 4 {
            Some(Priority::NotUrgent)
        } else {
            None
        }
    }

    /// The text shown for the variant.
    pub open spec fn label(self) -> Seq<char> {
        match self {
            Priority::ToBeDefined => "A définir"@,
            Priority::VeryUrgent => "Très urgent"@,
            Priority::Urgent => "Urgent"@,
            Priority::Normal => "Normal"@,
            Priority::NotUrgent => "Pas urgent"@,
        }
    }

    /// Encodes the variant for storage.
    pub fn ordinal(&self) -> (n: u8)
        ensures
            n == self.spec_ordinal(),
    {
        match self {
            Priority::ToBeDefined => 0,
            Priority::VeryUrgent => 1,
            Priority::Urgent => 2,
            Priority::Normal => 3,
            Priority::NotUrgent => 4,
        }
    }

    /// Decodes a stored ordinal; an integer that names no variant is refused.
    pub fn from_ordinal(n: i64) -> (r: Result<Priority, TaskError>)
        ensures
            match r {
                Ok(v) => Priority::spec_from_ordinal(n as int) == Some(v),
                Err(e) => Priority::spec_from_ordinal(n as int) is None
                    && e == (TaskError::InvalidOrdinal { family: Family::Priority, value: n }),
            },
    {
        match n {
            0 => Ok(Priority::ToBeDefined),
            1 => Ok(Priority::VeryUrgent),
            2 => Ok(Priority::Urgent),
            3 => Ok(Priority::Normal),
            4 => Ok(Priority::NotUrgent),
            _ => Err(TaskError::InvalidOrdinal { family: Family::Priority, value: n }),
        }
    }

    /// The label as an owned string.
    pub fn to_string(&self) -> (s: String)
        ensures
            s@ == self.label(),
    {
        match self {
            Priority::ToBeDefined => "A définir".to_owned(),
            Priority::VeryUrgent => "Très urgent".to_owned(),
            Priority::Urgent => "Urgent".to_owned(),
            Priority::Normal => "Normal".to_owned(),
            Priority::NotUrgent => "Pas urgent".to_owned(),
        }
    }

    /// Every variant with its label, in declaration order.
    pub fn all() -> (v: Vec<(Priority, String)>)
        ensures
            v@.len() == Priority::COUNT,
            forall|i: int|
                0 <= i < v@.len() ==> Priority::spec_from_ordinal(i) == Some(#[trigger] v@[i].0)
                    && v@[i].1@ == v@[i].0.label(),
    {
        let mut v: Vec<(Priority, String)> = Vec::new();
        v.push((Priority::ToBeDefined, Priority::ToBeDefined.to_string()));
        v.push((Priority::VeryUrgent, Priority::VeryUrgent.to_string()));
        v.push((Priority::Urgent, Priority::Urgent.to_string()));
        v.push((Priority::Normal, Priority::Normal.to_string()));
        v.push((Priority::NotUrgent, Priority::NotUrgent.to_string()));
        v
    }

    /// Decoding what `ordinal` produced gives the variant back, and the
    /// ordinal lies below `COUNT`.
    pub proof fn ordinal_round_trip(self)
        ensures
            0 <= self.spec_ordinal() < Priority::COUNT,
            Priority::spec_from_ordinal(self.spec_ordinal()) == Some(self),
    {
    }

    /// Exactly the integers from 0 up to `COUNT` decode; each of them encodes
    /// back to itself, so no two variants share an ordinal.
    pub proof fn decodes_exactly_in_range(n: int)
        ensures
            Priority::spec_from_ordinal(n) is Some <==> 0 <= n < Priority::COUNT,
            Priority::spec_from_ordinal(n) matches Some(v) ==> v.spec_ordinal() == n,
    {
    }
}

/// How much a task matters.
#[derive(Debug, Clone, Copy, PartialEq, Eq, Structural, PartialOrd, Ord, Hash)]
pub enum Importance {
    ToBeDefined,
    VeryImportant,
    Important,
    Normal,
    NotImportant,
}

impl Importance {
    /// Number of variants; the ordinals are the integers below it.
    pub const COUNT: u8 = 5;

    /// The ordinal under which the variant is stored.
    pub open spec fn spec_ordinal(self) -> int {
        match self {
            Importance::ToBeDefined => 0,
            Importance::VeryImportant => 1,
            Importance::Important => 2,
            Importance::Normal => 3,
            Importance::NotImportant => 4,
        }
    }

    /// The variant stored under `n`, if there is one.
    pub open spec fn spec_from_ordinal(n: int) -> Option<Importance> {
        if n == 0 {
            Some(Importance::ToBeDefined)
        } else if n == 1 {
            Some(Importance::VeryImportant)
        } else if n == 2 {
            Some(Importance::Important)
        } else if n == 3 {
            Some(Importance::Normal)
        } else if n == 4 {
            Some(Importance::NotImportant)
        } else {
            None
        }
    }

    /// The text shown for the variant.
    pub open spec fn label(self) -> Seq<char> {
        match self {
            Importance::ToBeDefined => "A définir"@,
            Importance::VeryImportant => "Très important"@,
            Importance::Important => "Important"@,
            Importance::Normal => "Normal"@,
            Importance::NotImportant => "Pas important"@,
        }
    }

    /// Encodes the variant for storage.
    pub fn ordinal(&self) -> (n: u8)
        ensures
            n == self.spec_ordinal(),
    {
        match self {
            Importance::ToBeDefined => 0,
            Importance::VeryImportant => 1,
            Importance::Important => 2,
            Importance::Normal => 3,
            Importance::NotImportant => 4,
        }
    }

    /// Decodes a stored ordinal; an integer that names no variant is refused.
    pub fn from_ordinal(n: i64) -> (r: Result<Importance, TaskError>)
        ensures
            match r {
                Ok(v) => Importance::spec_from_ordinal(n as int) == Some(v),
                Err(e) => Importance::spec_from_ordinal(n as int) is None
                    && e == (TaskError::InvalidOrdinal { family: Family::Importance, value: n }),
            },
    {
        match n {
            0 => Ok(Importance::ToBeDefined),
            1 => Ok(Importance::VeryImportant),
            2 => Ok(Importance::Important),
            3 => Ok(Importance::Normal),
            4 => Ok(Importance::NotImportant),
            _ => Err(TaskError::InvalidOrdinal { family: Family::Importance, value: n }),
        }
    }

    /// The label as an owned string.
    pub fn to_string(&self) -> (s: String)
        ensures
            s@ == self.label(),
    {
        match self {
            Importance::ToBeDefined => "A définir".to_owned(),
            Importance::VeryImportant => "Très important".to_owned(),
            Importance::Important => "Important".to_owned(),
            Importance::Normal => "Normal".to_owned(),
            Importance::NotImportant => "Pas important".to_owned(),
        }
    }

    /// Every variant with its label, in declaration order.
    pub fn all() -> (v: Vec<(Importance, String)>)
        ensures
            v@.len() == Importance::COUNT,
            forall|i: int|
                0 <= i < v@.len() ==> Importance::spec_from_ordinal(i) == Some(#[trigger] v@[i].0)
                    && v@[i].1@ == v@[i].0.label(),
    {
        let mut v: Vec<(Importance, String)> = Vec::new();
        v.push((Importance::ToBeDefined, Importance::ToBeDefined.to_string()));
        v.push((Importance::VeryImportant, Importance::VeryImportant.to_string()));
        v.push((Importance::Important, Importance::Important.to_string()));
        v.push((Importance::Normal, Importance::Normal.to_string()));
        v.push((Importance::NotImportant, Importance::NotImportant.to_string()));
        v
    }

    /// Decoding what `ordinal` produced gives the variant back, and the
    /// ordinal lies below `COUNT`.
    pub proof fn ordinal_round_trip(self)
        ensures
            0 <= self.spec_ordinal() < Importance::COUNT,
            Importance::spec_from_ordinal(self.spec_ordinal()) == Some(self),
    {
    }

    /// Exactly the integers from 0 up to `COUNT` decode; each of them encodes
    /// back to itself, so no two variants share an ordinal.
    pub proof fn decodes_exactly_in_range(n: int)
        ensures
            Importance::spec_from_ordinal(n) is Some <==> 0 <= n < Importance::COUNT,
            Importance::spec_from_ordinal(n) matches Some(v) ==> v.spec_ordinal() == n,
    {
    }
}

/// How long a task is expected to take.
#[derive(Debug, Clone, Copy, PartialEq, Eq, Structural, PartialOrd, Ord, Hash)]
pub enum Duration {
    ToBeDefined,
    VeryLong,
    Long,
    Normal,
    Short,
    VeryShort,
}

impl Duration {
    /// Number of variants; the ordinals are the integers below it.
    pub const COUNT: u8 = 6;

    /// The ordinal under which the variant is stored.
    pub open spec fn spec_ordinal(self) -> int {
        match self {
            Duration::ToBeDefined => 0,
            Duration::VeryLong => 1,
            Duration::Long => 2,
            Duration::Normal => 3,
            Duration::Short => 4,
            Duration::VeryShort => 5,
        }
    }

    /// The variant stored under `n`, if there is one.
    pub open spec fn spec_from_ordinal(n: int) -> Option<Duration> {
        if n == 0 {
            Some(Duration::ToBeDefined)
        } else if n == 1 {
            Some(Duration::VeryLong)
        } else if n == 2 {
            Some(Duration::Long)
        } else if n == 3 {
            Some(Duration::Normal)
        } else if n == 4 {
            Some(Duration::Short)
        } else if n == 5 {
            Some(Duration::VeryShort)
        } else {
            None
        }
    }

    /// The text shown for the variant.
    pub open spec fn label(self) -> Seq<char> {
        match self {
            Duration::ToBeDefined => "A définir"@,
            Duration::VeryLong => "Très long"@,
            Duration::Long => "Long"@,
            Duration::Normal => "Normal"@,
            Duration::Short => "Rapide"@,
            Duration::VeryShort => "Très court"@,
        }
    }

    /// Encodes the variant for storage.
    pub fn ordinal(&self) -> (n: u8)
        ensures
            n == self.spec_ordinal(),
    {
        match self {
            Duration::ToBeDefined => 0,
            Duration::VeryLong => 1,
            Duration::Long => 2,
            Duration::Normal => 3,
            Duration::Short => 4,
            Duration::VeryShort => 5,
        }
    }

    /// Decodes a stored ordinal; an integer that names no variant is refused.
    pub fn from_ordinal(n: i64) -> (r: Result<Duration, TaskError>)
        ensures
            match r {
                Ok(v) => Duration::spec_from_ordinal(n as int) == Some(v),
                Err(e) => Duration::spec_from_ordinal(n as int) is None
                    && e == (TaskError::InvalidOrdinal { family: Family::Duration, value: n }),
            },
    {
        match n {
            0 => Ok(Duration::ToBeDefined),
            1 => Ok(Duration::VeryLong),
            2 => Ok(Duration::Long),
            3 => Ok(Duration::Normal),
            4 => Ok(Duration::Short),
            5 => Ok(Duration::VeryShort),
            _ => Err(TaskError::InvalidOrdinal { family: Family::Duration, value: n }),
        }
    }

    /// The label as an owned string.
    pub fn to_string(&self) -> (s: String)
        ensures
            s@ == self.label(),
    {
        match self {
            Duration::ToBeDefined => "A définir".to_owned(),
            Duration::VeryLong => "Très long".to_owned(),
            Duration::Long => "Long".to_owned(),
            Duration::Normal => "Normal".to_owned(),
            Duration::Short => "Rapide".to_owned(),
            Duration::VeryShort => "Très court".to_owned(),
        }
    }

    /// Every variant with its label, in declaration order.
    pub fn all() -> (v: Vec<(Duration, String)>)
        ensures
            v@.len() == Duration::COUNT,
            forall|i: int|
                0 <= i < v@.len() ==> Duration::spec_from_ordinal(i) == Some(#[trigger] v@[i].0)
                    && v@[i].1@ == v@[i].0.label(),
    {
        let mut v: Vec<(Duration, String)> = Vec::new();
        v.push((Duration::ToBeDefined, Duration::ToBeDefined.to_string()));
        v.push((Duration::VeryLong, Duration::VeryLong.to_string()));
        v.push((Duration::Long, Duration::Long.to_string()));
        v.push((Duration::Normal, Duration::Normal.to_string()));
        v.push((Duration::Short, Duration::Short.to_string()));
        v.push((Duration::VeryShort, Duration::VeryShort.to_string()));
        v
    }

    /// Decoding what `ordinal` produced gives the variant back, and the
    /// ordinal lies below `COUNT`.
    pub proof fn ordinal_round_trip(self)
        ensures
            0 <= self.spec_ordinal() < Duration::COUNT,
            Duration::spec_from_ordinal(self.spec_ordinal()) == Some(self),
    {
    }

    /// Exactly the integers from 0 up to `COUNT` decode; each of them encodes
    /// back to itself, so no two variants share an ordinal.
    pub proof fn decodes_exactly_in_range(n: int)
        ensures
            Duration::spec_from_ordinal(n) is Some <==> 0 <= n < Duration::COUNT,
            Duration::spec_from_ordinal(n) matches Some(v) ==> v.spec_ordinal() == n,
    {
    }
}

/// Where a task stands in its lifecycle.
#[derive(Debug, Clone, Copy, PartialEq, Eq, Structural, PartialOrd, Ord, Hash)]
pub enum Status {
    ToDo,
    InProgress,
    Finished,
    Canceled,
    Blocked,
}

impl Status {
    /// Number of variants; the ordinals are the integers below it.
    pub const COUNT: u8 = 5;

    /// The ordinal under which the variant is stored.
    pub open spec fn spec_ordinal(self) -> int {
        match self {
            Status::ToDo => 0,
            Status::InProgress => 1,
            Status::Finished => 2,
            Status::Canceled => 3,
            Status::Blocked => 4,
        }
    }

    /// The variant stored under `n`, if there is one.
    pub open spec fn spec_from_ordinal(n: int) -> Option<Status> {
        if n == 0 {
            Some(Status::ToDo)
        } else if n == 1 {
            Some(Status::InProgress)
        } else if n == 2 {
            Some(Status::Finished)
        } else if n == 3 {
            Some(Status::Canceled)
        } else if n == 4 {
            Some(Status::Blocked)
        } else {
            None
        }
    }

    /// The text shown for the variant.
    pub open spec fn label(self) -> Seq<char> {
        match self {
            Status::ToDo => "A faire"@,
            Status::InProgress => "En cours"@,
            Status::Finished => "Fini"@,
            Status::Canceled => "Annulé"@,
            Status::Blocked => "Bloqué"@,
        }
    }

    /// Encodes the variant for storage.
    pub fn ordinal(&self) -> (n: u8)
        ensures
            n == self.spec_ordinal(),
    {
        match self {
            Status::ToDo => 0,
            Status::InProgress => 1,
            Status::Finished => 2,
            Status::Canceled => 3,
            Status::Blocked => 4,
        }
    }

    /// Decodes a stored ordinal; an integer that names no variant is refused.
    pub fn from_ordinal(n: i64) -> (r: Result<Status, TaskError>)
        ensures
            match r {
                Ok(v) => Status::spec_from_ordinal(n as int) == Some(v),
                Err(e) => Status::spec_from_ordinal(n as int) is None
                    && e == (TaskError::InvalidOrdinal { family: Family::Status, value: n }),
            },
    {
        match n {
            0 => Ok(Status::ToDo),
            1 => Ok(Status::InProgress),
            2 => Ok(Status::Finished),
            3 => Ok(Status::Canceled),
            4 => Ok(Status::Blocked),
            _ => Err(TaskError::InvalidOrdinal { family: Family::Status, value: n }),
        }
    }

    /// The label as an owned string.
    pub fn to_string(&self) -> (s: String)
        ensures
            s@ == self.label(),
    {
        match self {
            Status::ToDo => "A faire".to_owned(),
            Status::InProgress => "En cours".to_owned(),
            Status::Finished => "Fini".to_owned(),
            Status::Canceled => "Annulé".to_owned(),
            Status::Blocked => "Bloqué".to_owned(),
        }
    }

    /// Every variant with its label, in declaration order.
    pub fn all() -> (v: Vec<(Status, String)>)
        ensures
            v@.len() == Status::COUNT,
            forall|i: int|
                0 <= i < v@.len() ==> Status::spec_from_ordinal(i) == Some(#[trigger] v@[i].0)
                    && v@[i].1@ == v@[i].0.label(),
    {
        let mut v: Vec<(Status, String)> = Vec::new();
        v.push((Status::ToDo, Status::ToDo.to_string()));
        v.push((Status::InProgress, Status::InProgress.to_string()));
        v.push((Status::Finished, Status::Finished.to_string()));
        v.push((Status::Canceled, Status::Canceled.to_string()));
        v.push((Status::Blocked, Status::Blocked.to_string()));
        v
    }

    /// Decoding what `ordinal` produced gives the variant back, and the
    /// ordinal lies below `COUNT`.
    pub proof fn ordinal_round_trip(self)
        ensures
            0 <= self.spec_ordinal() < Status::COUNT,
            Status::spec_from_ordinal(self.spec_ordinal()) == Some(self),
    {
    }

    /// Exactly the integers from 0 up to `COUNT` decode; each of them encodes
    /// back to itself, so no two variants share an ordinal.
    pub proof fn decodes_exactly_in_range(n: int)
        ensures
            Status::spec_from_ordinal(n) is Some <==> 0 <= n < Status::COUNT,
            Status::spec_from_ordinal(n) matches Some(v) ==> v.spec_ordinal() == n,
    {
    }
}

} // verus!
