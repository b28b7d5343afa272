//! The SQL text of the work-types backend: the provisioning scripts,
//! the left-outer-join listing, and the two transactional inserts.
//! The relational client binds and executes these outside the
//! library; the create path runs both inserts in one transaction, so
//! a work type and its attribute definitions appear all together or
//! not at all.

use vstd::prelude::*;

verus! {

/// The provisioning script of the work-type tables, written with
/// idempotent creation.
pub const QUERY: &'static str = "
                    CREATE TABLE IF NOT EXISTS WorkType (
                        id UUID PRIMARY KEY DEFAULT uuid_generate_v4(),
                        title VARCHAR(100) NOT NULL,
                        description TEXT,
                        created_at TIMESTAMPTZ NOT NULL DEFAULT now(),
                        updated_at TIMESTAMPTZ NOT NULL DEFAULT now()
                    );

                    CREATE TABLE IF NOT EXISTS WorkAttributeType (
                        id UUID PRIMARY KEY DEFAULT uuid_generate_v4(),
                        work_type_id UUID NOT NULL REFERENCES WorkType(id) ON DELETE CASCADE,
                        name VARCHAR(100) NOT NULL,
                        data_type VARCHAR(50) NOT NULL,
                        is_required BOOLEAN NOT NULL DEFAULT FALSE,
                        is_hidden BOOLEAN NOT NULL DEFAULT FALSE,
                        created_at TIMESTAMPTZ NOT NULL DEFAULT now(),
                        updated_at TIMESTAMPTZ NOT NULL DEFAULT now()
                    );
            ";

/// An older shape of the same script, without idempotent creation:
/// on a second run its statements fail as "already exists", which
/// the provisioning step tolerates statement by statement.
pub const WORKTYPE_QUERY: &'static str = "
                    CREATE TABLE WorkType (
                        id UUID PRIMARY KEY DEFAULT uuid_generate_v4(),
                        title VARCHAR(100) NOT NULL,
                        description TEXT,
                        created_at TIMESTAMPTZ NOT NULL DEFAULT now(),
                        updated_at TIMESTAMPTZ NOT NULL DEFAULT now()
                    );

                    CREATE TABLE WorkAttributeType (
                        id UUID PRIMARY KEY DEFAULT uuid_generate_v4(),
                        work_type_id UUID NOT NULL REFERENCES WorkType(id) ON DELETE CASCADE,
                        name VARCHAR(100) NOT NULL,
                        data_type VARCHAR(50) NOT NULL,
                        is_required BOOLEAN NOT NULL DEFAULT FALSE,
                        is_hidden BOOLEAN NOT NULL DEFAULT FALSE,
                        created_at TIMESTAMPTZ NOT NULL DEFAULT now(),
                        updated_at TIMESTAMPTZ NOT NULL DEFAULT now()
                    );
            ";

/// The left-outer-join scan behind the listing; its rows are folded
/// back into records in-process.
pub const LIST_WORK_TYPES_SQL: &'static str = "
                SELECT
                    wt.id AS work_type_id,
                    wt.title,
                    wt.description,
                    wt.created_at AS work_type_created_at,
                    wt.updated_at AS work_type_updated_at,
                    wat.id AS attribute_id,
                    wat.name AS attribute_name,
                    wat.data_type,
                    wat.is_required,
                    wat.is_hidden,
                    wat.created_at AS attribute_created_at,
                    wat.updated_at AS attribute_updated_at
                FROM WorkType wt
                LEFT JOIN WorkAttributeType wat ON wt.id = wat.work_type_id
                ORDER BY wt.id
    ";

/// The parent insert of the transactional create.
pub const INSERT_WORK_TYPE_SQL: &'static str = "
INSERT INTO WorkType
(id, title, description, created_at, updated_at)
VALUES ($1, $2, $3, $4, $5)
";

/// The attribute insert of the transactional create, one per
/// attribute definition, all inside the parent's transaction.
pub const INSERT_WORK_ATTRIBUTE_TYPE_SQL: &'static str = "
INSERT INTO WorkAttributeType
(id, work_type_id, name, data_type, is_required, is_hidden, created_at, updated_at)
VALUES ($1, $2, $3, $4, $5, $6, $7, $8)
";

} // verus!
