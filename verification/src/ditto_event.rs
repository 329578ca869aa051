//! The events that the service stores, and the kinds of change they record.

use vstd::prelude::*;
use crate::text::str_equals;

verus! {

/// The kind of change that a Ditto event reports.
#[derive(Debug, Clone, Copy, PartialEq, Eq, Structural)]
pub enum Action {
    Modified,
    Created,
    Deleted,
    Merged,
}

/// The action that a label in a Ditto topic names, if any: each action has
/// a lower-case label and the label that the database enum uses.
pub open spec fn action_from_label(label: Seq<char>) -> Option<Action> {
    if label == "modified"@ || label == "MODIFIED"@ {
        Some(Action::Modified)
    } else if label == "created"@ || label == "CREATE"@ {
        Some(Action::Created)
    } else if label == "deleted"@ || label == "DELETE"@ {
        Some(Action::Deleted)
    } else if label == "merged"@ || label == "MERGED"@ {
        Some(Action::Merged)
    } else {
        None
    }
}

/// The label of an action in the database's `action_enum`.
pub open spec fn db_label(action: Action) -> Seq<char> {
    match action {
        Action::Modified => "MODIFIED"@,
        Action::Created => "CREATE"@,
        Action::Deleted => "DELETE"@,
        Action::Merged => "MERGED"@,
    }
}

/// The message of the error for a label that names no action.
pub open spec fn unknown_action_message(label: Seq<char>) -> Seq<char> {
    "Unknown action: "@ + label
}

impl Action {
    /// Reads an action from its label in a Ditto topic.
    pub fn try_from(value: &str) -> (res: Result<Action, String>)
        ensures
            match action_from_label(value@) {
                Some(a) => res == Ok::<Action, String>(a),
                None => res matches Err(e) && e@ == unknown_action_message(value@),
            },
    {
        if str_equals(value, "modified") || str_equals(value, "MODIFIED") {
            Ok(Action::Modified)
        } else if str_equals(value, "created") || str_equals(value, "CREATE") {
            Ok(Action::Created)
        } else if str_equals(value, "deleted") || str_equals(value, "DELETE") {
            Ok(Action::Deleted)
        } else if str_equals(value, "merged") || str_equals(value, "MERGED") {
            Ok(Action::Merged)
        } else {
            let mut msg = String::from_str("Unknown action: ");
            msg.append(value);
            Err(msg)
        }
    }

    /// The action's label in the database enum `action_enum`.
    pub fn to_string(&self) -> (res: String)
        ensures
            res@ == db_label(*self),
    {
        match self {
            Action::Modified => String::from_str("MODIFIED"),
            Action::Created => String::from_str("CREATE"),
            Action::Deleted => String::from_str("DELETE"),
            Action::Merged => String::from_str("MERGED"),
        }
    }
}

/// The database label of every action reads back as that action.
pub proof fn lemma_db_label_round_trip(action: Action)
    ensures
        action_from_label(db_label(action)) == Some(action),
{
    reveal_strlit("modified");
    reveal_strlit("MODIFIED");
    reveal_strlit("created");
    reveal_strlit("CREATE");
    reveal_strlit("deleted");
    reveal_strlit("DELETE");
    reveal_strlit("merged");
    reveal_strlit("MERGED");
    match action {
        Action::Modified => {},
        Action::Created => {
            assert("CREATE"@[0] != "modified"@[0]);
            assert("CREATE"@[0] != "MODIFIED"@[0]);
        },
        Action::Deleted => {
            assert("DELETE"@[0] != "modified"@[0]);
            assert("DELETE"@[0] != "MODIFIED"@[0]);
            assert("DELETE"@[0] != "created"@[0]);
            assert("DELETE"@[0] != "CREATE"@[0]);
        },
        Action::Merged => {
            assert("MERGED"@[1] != "modified"@[1]);
            assert("MERGED"@[1] != "MODIFIED"@[1]);
            assert("MERGED"@[0] != "created"@[0]);
            assert("MERGED"@[0] != "CREATE"@[0]);
            assert("MERGED"@[0] != "deleted"@[0]);
            assert("MERGED"@[0] != "DELETE"@[0]);
        },
    }
}


/// An instant, as seconds since the Unix epoch (UTC) and nanoseconds past
/// that second; the nanoseconds reach past a billion only for a leap second.
#[derive(Debug, Clone, Copy, PartialEq, Eq, Structural)]
pub struct EventTime {
    pub secs: i64,
    pub nanos: u32,
}

/// One change of a Ditto thing, as a row of the `dittoevent` table.
#[derive(Debug, Clone)]
pub struct DittoEvent {
    pub time: EventTime,
    /// `namespace:name` of the thing.
    pub thing_id: String,
    pub action: Action,
    /// The thing's revision, cut to 32 bits.
    pub revision: Option<i32>,
    /// The JSON pointer of the part of the thing that changed.
    pub path: String,
    /// The new value as JSON text; `None` for a missing or `null` value.
    pub value: Option<String>,
}

/// The mathematical content of a [`DittoEvent`].
pub struct DittoEventView {
    pub time: EventTime,
    pub thing_id: Seq<char>,
    pub action: Action,
    pub revision: Option<i32>,
    pub path: Seq<char>,
    pub value: Option<Seq<char>>,
}

impl View for DittoEvent {
    type V = DittoEventView;

    open spec fn view(&self) -> DittoEventView {
        DittoEventView {
            time: self.time,
            thing_id: self.thing_id@,
            action: self.action,
            revision: self.revision,
            path: self.path@,
            value: self.value.deep_view(),
        }
    }
}

/// The SQL that creates the `action_enum` type and the `dittoevent`
/// hypertable with its compression policy and index, if they do not exist.
pub const DDL_SQL: &'static str = "
DO $$ 
BEGIN
    CREATE TYPE action_enum AS ENUM ('MODIFIED', 'CREATE', 'DELETE', 'MERGED');
EXCEPTION
    WHEN duplicate_object THEN null;
END $$;

CREATE TABLE IF NOT EXISTS dittoevent (
    time TIMESTAMPTZ NOT NULL,
    thing_id VARCHAR NOT NULL,
    action action_enum NOT NULL,
    revision INTEGER,
    path VARCHAR NOT NULL,
    value JSONB
);

-- Turn it into a hypertable partitioned only by 'time'
SELECT create_hypertable('dittoevent', 'time', chunk_time_interval => INTERVAL '1 day', if_not_exists => TRUE);

-- Configure TimescaleDB compression
ALTER TABLE dittoevent SET (
    timescaledb.compress,
    timescaledb.compress_segmentby = 'thing_id',
    timescaledb.compress_orderby = 'time DESC'
);

SELECT add_compression_policy('dittoevent', INTERVAL '7 days', if_not_exists => TRUE);

-- Index for segmentby optimization
CREATE INDEX IF NOT EXISTS idx_dittoevent_thing_id ON dittoevent (thing_id);
";

} // verus!
