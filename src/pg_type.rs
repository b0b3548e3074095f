use vstd::prelude::*;
use crate::text::str_eq;

verus! {

/// A PostgreSQL type descriptor, one row of the `pg_type` catalog.
#[derive(Debug, Clone, Copy)]
pub struct PgType {
    pub oid: i32,
    pub typname: &'static str,
    pub typnamespace: i32,
    pub typowner: i32,
    pub typlen: i16,
    pub typbyval: bool,
    pub typtype: &'static str,
    pub typcategory: &'static str,
    pub typisprefered: bool,
    pub typisdefined: bool,
    pub typrelid: i32,
    pub typsubscript: &'static str,
    pub typelem: i32,
    pub typarray: i32,
    pub typalign: &'static str,
    pub typstorage: &'static str,
    pub typbasetype: i32,
    pub typreceive: &'static str,
    pub typinput: &'static str,
}

/// Stable identifiers of the well-known types of the catalog.
#[allow(non_camel_case_types)]
#[derive(Debug, Clone, Copy, PartialEq, Eq, Structural)]
pub enum PgTypeId {
    UNSPECIFIED,
    BOOL,
    BYTEA,
    NAME,
    INT8,
    INT2,
    INT4,
    TEXT,
    OID,
    TID,
    PGCLASS,
    FLOAT4,
    FLOAT8,
    MONEY,
    INET,
    ARRAYBOOL,
    ARRAYBYTEA,
    ARRAYINT2,
    ARRAYINT4,
    ARRAYTEXT,
    ARRAYINT8,
    ARRAYFLOAT4,
    ARRAYFLOAT8,
    ACLITEM,
    ARRAYACLITEM,
    BPCHAR,
    VARCHAR,
    DATE,
    TIME,
    TIMESTAMP,
    TIMESTAMPTZ,
    INTERVAL,
    TIMETZ,
    NUMERIC,
    RECORD,
    ANYARRAY,
    ANYELEMENT,
    PGLSN,
    ANYENUM,
    ANYRANGE,
    INT4RANGE,
    NUMRANGE,
    TSRANGE,
    TSTZRANGE,
    DATERANGE,
    INT8RANGE,
    INT4MULTIRANGE,
    NUMMULTIRANGE,
    TSMULTIRANGE,
    DATEMULTIRANGE,
    INT8MULTIRANGE,
    CHARACTERDATA,
    SQLIDENTIFIER,
}

/// The OID of the `pg_proc` entry of a receive function, by its name;
/// 0 for a name the catalog does not know.
pub open spec fn receive_proc_oid(name: Seq<char>) -> i32 {
    if name == "array_recv"@ {
        2400
    } else if name == "boolrecv"@ {
        2436
    } else if name == "float4recv"@ {
        2424
    } else if name == "float8recv"@ {
        2426
    } else if name == "int2recv"@ {
        2404
    } else if name == "int4recv"@ {
        2406
    } else if name == "int8recv"@ {
        2408
    } else if name == "numeric_recv"@ {
        2460
    } else if name == "textrecv"@ {
        2414
    } else if name == "timestamp_recv"@ {
        2474
    } else if name == "varcharrecv"@ {
        2432
    } else {
        0
    }
}

/// Whether `r` is what looking up `oid` in the catalog gives: the identifier
/// whose descriptor carries that OID, or nothing when no descriptor does.
pub open spec fn oid_lookup(oid: i32, r: Option<PgTypeId>) -> bool {
    match r {
        Some(t) => t.spec_oid() == oid,
        None => forall|t: PgTypeId| #[trigger] t.spec_oid() != oid,
    }
}

/// Every identifier of the catalog but `UNSPECIFIED`, in declaration order.
pub open spec fn listed_type_ids() -> Seq<PgTypeId> {
    seq![
        PgTypeId::BOOL,
        PgTypeId::BYTEA,
        PgTypeId::NAME,
        PgTypeId::INT8,
        PgTypeId::INT2,
        PgTypeId::INT4,
        PgTypeId::TEXT,
        PgTypeId::OID,
        PgTypeId::TID,
        PgTypeId::PGCLASS,
        PgTypeId::FLOAT4,
        PgTypeId::FLOAT8,
        PgTypeId::MONEY,
        PgTypeId::INET,
        PgTypeId::ARRAYBOOL,
        PgTypeId::ARRAYBYTEA,
        PgTypeId::ARRAYINT2,
        PgTypeId::ARRAYINT4,
        PgTypeId::ARRAYTEXT,
        PgTypeId::ARRAYINT8,
        PgTypeId::ARRAYFLOAT4,
        PgTypeId::ARRAYFLOAT8,
        PgTypeId::ACLITEM,
        PgTypeId::ARRAYACLITEM,
        PgTypeId::BPCHAR,
        PgTypeId::VARCHAR,
        PgTypeId::DATE,
        PgTypeId::TIME,
        PgTypeId::TIMESTAMP,
        PgTypeId::TIMESTAMPTZ,
        PgTypeId::INTERVAL,
        PgTypeId::TIMETZ,
        PgTypeId::NUMERIC,
        PgTypeId::RECORD,
        PgTypeId::ANYARRAY,
        PgTypeId::ANYELEMENT,
        PgTypeId::PGLSN,
        PgTypeId::ANYENUM,
        PgTypeId::ANYRANGE,
        PgTypeId::INT4RANGE,
        PgTypeId::NUMRANGE,
        PgTypeId::TSRANGE,
        PgTypeId::TSTZRANGE,
        PgTypeId::DATERANGE,
        PgTypeId::INT8RANGE,
        PgTypeId::INT4MULTIRANGE,
        PgTypeId::NUMMULTIRANGE,
        PgTypeId::TSMULTIRANGE,
        PgTypeId::DATEMULTIRANGE,
        PgTypeId::INT8MULTIRANGE,
        PgTypeId::CHARACTERDATA,
        PgTypeId::SQLIDENTIFIER,
    ]
}

impl PgTypeId {
    /// The descriptor that the catalog holds for this identifier.
    pub open spec fn descriptor(self) -> PgType {
        match self {
            PgTypeId::UNSPECIFIED => PgType {
                oid: 0,
                typname: "unspecified",
                typnamespace: 11,
                typowner: 10,
                typlen: 1,
                typbyval: true,
                typtype: "b",
                typcategory: "B",
                typisprefered: true,
                typisdefined: true,
                typrelid: 0,
                typsubscript: "-",
                typelem: 0,
                typarray: 0,
                typalign: "-",
                typstorage: "-",
                typbasetype: 0,
                typreceive: "-",
                typinput: "-",
            },
            PgTypeId::BOOL => PgType {
                oid: 16,
                typname: "bool",
                typnamespace: 11,
                typowner: 10,
                typlen: 1,
                typbyval: true,
                typtype: "b",
                typcategory: "B",
                typisprefered: true,
                typisdefined: true,
                typrelid: 0,
                typsubscript: "-",
                typelem: 0,
                typarray: 0,
                typalign: "c",
                typstorage: "p",
                typbasetype: 0,
                typreceive: "boolrecv",
                typinput: "boolin",
            },
            PgTypeId::BYTEA => PgType {
                oid: 17,
                typname: "bytea",
                typnamespace: 11,
                typowner: 10,
                typlen: -1i16,
                typbyval: false,
                typtype: "b",
                typcategory: "U",
                typisprefered: false,
                typisdefined: true,
                typrelid: 0,
                typsubscript: "-",
                typelem: 0,
                typarray: 0,
                typalign: "i",
                typstorage: "x",
                typbasetype: 0,
                typreceive: "bytearecv",
                typinput: "byteain",
            },
            PgTypeId::NAME => PgType {
                oid: 19,
                typname: "name",
                typnamespace: 11,
                typowner: 10,
                typlen: 64,
                typbyval: false,
                typtype: "b",
                typcategory: "S",
                typisprefered: false,
                typisdefined: true,
                typrelid: 0,
                typsubscript: "raw_array_subscript_handler",
                typelem: 0,
                typarray: 0,
                typalign: "c",
                typstorage: "p",
                typbasetype: 0,
                typreceive: "namerecv",
                typinput: "namein",
            },
            PgTypeId::INT8 => PgType {
                oid: 20,
                typname: "int8",
                typnamespace: 11,
                typowner: 10,
                typlen: 8,
                typbyval: true,
                typtype: "b",
                typcategory: "N",
                typisprefered: false,
                typisdefined: true,
                typrelid: 0,
                typsubscript: "-",
                typelem: 0,
                typarray: 0,
                typalign: "d",
                typstorage: "p",
                typbasetype: 0,
                typreceive: "int8recv",
                typinput: "int8in",
            },
            PgTypeId::INT2 => PgType {
                oid: 21,
                typname: "int2",
                typnamespace: 11,
                typowner: 10,
                typlen: 2,
                typbyval: true,
                typtype: "b",
                typcategory: "N",
                typisprefered: false,
                typisdefined: true,
                typrelid: 0,
                typsubscript: "-",
                typelem: 0,
                typarray: 0,
                typalign: "s",
                typstorage: "p",
                typbasetype: 0,
                typreceive: "int2recv",
                typinput: "int2in",
            },
            PgTypeId::INT4 => PgType {
                oid: 23,
                typname: "int4",
                typnamespace: 11,
                typowner: 10,
                typlen: 4,
                typbyval: true,
                typtype: "b",
                typcategory: "N",
                typisprefered: false,
                typisdefined: true,
                typrelid: 0,
                typsubscript: "-",
                typelem: 0,
                typarray: 0,
                typalign: "i",
                typstorage: "p",
                typbasetype: 0,
                typreceive: "int4recv",
                typinput: "int4in",
            },
            PgTypeId::TEXT => PgType {
                oid: 25,
                typname: "text",
                typnamespace: 11,
                typowner: 10,
                typlen: -1i16,
                typbyval: false,
                typtype: "b",
                typcategory: "S",
                typisprefered: true,
                typisdefined: true,
                typrelid: 0,
                typsubscript: "-",
                typelem: 0,
                typarray: 0,
                typalign: "i",
                typstorage: "x",
                typbasetype: 0,
                typreceive: "textrecv",
                typinput: "textin",
            },
            PgTypeId::OID => PgType {
                oid: 26,
                typname: "oid",
                typnamespace: 11,
                typowner: 10,
                typlen: 4,
                typbyval: true,
                typtype: "b",
                typcategory: "N",
                typisprefered: true,
                typisdefined: true,
                typrelid: 0,
                typsubscript: "-",
                typelem: 0,
                typarray: 1028,
                typalign: "i",
                typstorage: "p",
                typbasetype: 0,
                typreceive: "oidrecv",
                typinput: "oidin",
            },
            PgTypeId::TID => PgType {
                oid: 27,
                typname: "tid",
                typnamespace: 11,
                typowner: 10,
                typlen: 6,
                typbyval: false,
                typtype: "b",
                typcategory: "U",
                typisprefered: false,
                typisdefined: true,
                typrelid: 0,
                typsubscript: "-",
                typelem: 0,
                typarray: 1010,
                typalign: "s",
                typstorage: "p",
                typbasetype: 0,
                typreceive: "tidrecv",
                typinput: "tidin",
            },
            PgTypeId::PGCLASS => PgType {
                oid: 83,
                typname: "pg_class",
                typnamespace: 11,
                typowner: 10,
                typlen: -1i16,
                typbyval: false,
                typtype: "c",
                typcategory: "C",
                typisprefered: false,
                typisdefined: true,
                typrelid: 1259,
                typsubscript: "-",
                typelem: 0,
                typarray: 273,
                typalign: "d",
                typstorage: "x",
                typbasetype: 0,
                typreceive: "record_recv",
                typinput: "record_in",
            },
            PgTypeId::FLOAT4 => PgType {
                oid: 700,
                typname: "float4",
                typnamespace: 11,
                typowner: 10,
                typlen: 4,
                typbyval: true,
                typtype: "b",
                typcategory: "N",
                typisprefered: false,
                typisdefined: true,
                typrelid: 0,
                typsubscript: "-",
                typelem: 0,
                typarray: 1021,
                typalign: "i",
                typstorage: "p",
                typbasetype: 0,
                typreceive: "float4recv",
                typinput: "float4in",
            },
            PgTypeId::FLOAT8 => PgType {
                oid: 701,
                typname: "float8",
                typnamespace: 11,
                typowner: 10,
                typlen: 8,
                typbyval: true,
                typtype: "b",
                typcategory: "N",
                typisprefered: true,
                typisdefined: true,
                typrelid: 0,
                typsubscript: "-",
                typelem: 0,
                typarray: 1022,
                typalign: "d",
                typstorage: "p",
                typbasetype: 0,
                typreceive: "float8recv",
                typinput: "float8in",
            },
            PgTypeId::MONEY => PgType {
                oid: 790,
                typname: "money",
                typnamespace: 11,
                typowner: 10,
                typlen: 8,
                typbyval: true,
                typtype: "b",
                typcategory: "N",
                typisprefered: false,
                typisdefined: true,
                typrelid: 0,
                typsubscript: "-",
                typelem: 0,
                typarray: 791,
                typalign: "d",
                typstorage: "p",
                typbasetype: 0,
                typreceive: "cash_recv",
                typinput: "cash_in",
            },
            PgTypeId::INET => PgType {
                oid: 869,
                typname: "inet",
                typnamespace: 11,
                typowner: 10,
                typlen: -1i16,
                typbyval: false,
                typtype: "b",
                typcategory: "I",
                typisprefered: true,
                typisdefined: true,
                typrelid: 0,
                typsubscript: "-",
                typelem: 0,
                typarray: 1041,
                typalign: "i",
                typstorage: "m",
                typbasetype: 0,
                typreceive: "inet_recv",
                typinput: "inet_in",
            },
            PgTypeId::ARRAYBOOL => PgType {
                oid: 1000,
                typname: "_bool",
                typnamespace: 11,
                typowner: 10,
                typlen: -1i16,
                typbyval: false,
                typtype: "b",
                typcategory: "A",
                typisprefered: false,
                typisdefined: true,
                typrelid: 0,
                typsubscript: "array_subscript_handler",
                typelem: 16,
                typarray: 0,
                typalign: "i",
                typstorage: "x",
                typbasetype: 0,
                typreceive: "array_recv",
                typinput: "array_in",
            },
            PgTypeId::ARRAYBYTEA => PgType {
                oid: 1001,
                typname: "_bytea",
                typnamespace: 11,
                typowner: 10,
                typlen: -1i16,
                typbyval: false,
                typtype: "b",
                typcategory: "A",
                typisprefered: false,
                typisdefined: true,
                typrelid: 0,
                typsubscript: "array_subscript_handler",
                typelem: 17,
                typarray: 0,
                typalign: "i",
                typstorage: "x",
                typbasetype: 0,
                typreceive: "array_recv",
                typinput: "array_in",
            },
            PgTypeId::ARRAYINT2 => PgType {
                oid: 1005,
                typname: "_int2",
                typnamespace: 11,
                typowner: 10,
                typlen: -1i16,
                typbyval: false,
                typtype: "b",
                typcategory: "A",
                typisprefered: false,
                typisdefined: true,
                typrelid: 0,
                typsubscript: "array_subscript_handler",
                typelem: 21,
                typarray: 0,
                typalign: "i",
                typstorage: "x",
                typbasetype: 0,
                typreceive: "array_recv",
                typinput: "array_in",
            },
            PgTypeId::ARRAYINT4 => PgType {
                oid: 1007,
                typname: "_int4",
                typnamespace: 11,
                typowner: 10,
                typlen: -1i16,
                typbyval: false,
                typtype: "b",
                typcategory: "A",
                typisprefered: false,
                typisdefined: true,
                typrelid: 0,
                typsubscript: "array_subscript_handler",
                typelem: 23,
                typarray: 0,
                typalign: "i",
                typstorage: "x",
                typbasetype: 0,
                typreceive: "array_recv",
                typinput: "array_in",
            },
            PgTypeId::ARRAYTEXT => PgType {
                oid: 1009,
                typname: "_text",
                typnamespace: 11,
                typowner: 10,
                typlen: -1i16,
                typbyval: false,
                typtype: "b",
                typcategory: "A",
                typisprefered: false,
                typisdefined: true,
                typrelid: 0,
                typsubscript: "array_subscript_handler",
                typelem: 25,
                typarray: 0,
                typalign: "i",
                typstorage: "x",
                typbasetype: 0,
                typreceive: "array_recv",
                typinput: "array_in",
            },
            PgTypeId::ARRAYINT8 => PgType {
                oid: 1016,
                typname: "_int8",
                typnamespace: 11,
                typowner: 10,
                typlen: -1i16,
                typbyval: false,
                typtype: "b",
                typcategory: "A",
                typisprefered: false,
                typisdefined: true,
                typrelid: 0,
                typsubscript: "array_subscript_handler",
                typelem: 20,
                typarray: 0,
                typalign: "d",
                typstorage: "x",
                typbasetype: 0,
                typreceive: "array_recv",
                typinput: "array_in",
            },
            PgTypeId::ARRAYFLOAT4 => PgType {
                oid: 1021,
                typname: "_float4",
                typnamespace: 11,
                typowner: 10,
                typlen: -1i16,
                typbyval: false,
                typtype: "b",
                typcategory: "A",
                typisprefered: false,
                typisdefined: true,
                typrelid: 0,
                typsubscript: "array_subscript_handler",
                typelem: 700,
                typarray: 0,
                typalign: "i",
                typstorage: "x",
                typbasetype: 0,
                typreceive: "array_recv",
                typinput: "array_in",
            },
            PgTypeId::ARRAYFLOAT8 => PgType {
                oid: 1022,
                typname: "_float8",
                typnamespace: 11,
                typowner: 10,
                typlen: -1i16,
                typbyval: false,
                typtype: "b",
                typcategory: "A",
                typisprefered: false,
                typisdefined: true,
                typrelid: 0,
                typsubscript: "array_subscript_handler",
                typelem: 701,
                typarray: 0,
                typalign: "d",
                typstorage: "x",
                typbasetype: 0,
                typreceive: "array_recv",
                typinput: "array_in",
            },
            PgTypeId::ACLITEM => PgType {
                oid: 1033,
                typname: "aclitem",
                typnamespace: 11,
                typowner: 10,
                typlen: 12,
                typbyval: false,
                typtype: "b",
                typcategory: "U",
                typisprefered: false,
                typisdefined: true,
                typrelid: 0,
                typsubscript: "-",
                typelem: 0,
                typarray: 1034,
                typalign: "i",
                typstorage: "p",
                typbasetype: 0,
                typreceive: "-",
                typinput: "aclitemin",
            },
            PgTypeId::ARRAYACLITEM => PgType {
                oid: 1034,
                typname: "_aclitem",
                typnamespace: 11,
                typowner: 10,
                typlen: -1i16,
                typbyval: false,
                typtype: "b",
                typcategory: "A",
                typisprefered: false,
                typisdefined: true,
                typrelid: 0,
                typsubscript: "array_subscript_handler",
                typelem: 1033,
                typarray: 0,
                typalign: "i",
                typstorage: "x",
                typbasetype: 0,
                typreceive: "array_recv",
                typinput: "array_in",
            },
            PgTypeId::BPCHAR => PgType {
                oid: 1042,
                typname: "bpchar",
                typnamespace: 11,
                typowner: 10,
                typlen: -1i16,
                typbyval: false,
                typtype: "b",
                typcategory: "S",
                typisprefered: false,
                typisdefined: true,
                typrelid: 0,
                typsubscript: "-",
                typelem: 0,
                typarray: 1014,
                typalign: "i",
                typstorage: "x",
                typbasetype: 0,
                typreceive: "bpcharrecv",
                typinput: "bpcharin",
            },
            PgTypeId::VARCHAR => PgType {
                oid: 1043,
                typname: "varchar",
                typnamespace: 11,
                typowner: 10,
                typlen: -1i16,
                typbyval: false,
                typtype: "b",
                typcategory: "S",
                typisprefered: false,
                typisdefined: true,
                typrelid: 0,
                typsubscript: "-",
                typelem: 0,
                typarray: 0,
                typalign: "i",
                typstorage: "x",
                typbasetype: 0,
                typreceive: "varcharrecv",
                typinput: "varcharin",
            },
            PgTypeId::DATE => PgType {
                oid: 1082,
                typname: "date",
                typnamespace: 11,
                typowner: 10,
                typlen: 4,
                typbyval: true,
                typtype: "b",
                typcategory: "D",
                typisprefered: false,
                typisdefined: true,
                typrelid: 0,
                typsubscript: "-",
                typelem: 0,
                typarray: 0,
                typalign: "i",
                typstorage: "p",
                typbasetype: 0,
                typreceive: "date_recv",
                typinput: "date_in",
            },
            PgTypeId::TIME => PgType {
                oid: 1083,
                typname: "time",
                typnamespace: 11,
                typowner: 10,
                typlen: 8,
                typbyval: true,
                typtype: "b",
                typcategory: "D",
                typisprefered: false,
                typisdefined: true,
                typrelid: 0,
                typsubscript: "-",
                typelem: 0,
                typarray: 1183,
                typalign: "d",
                typstorage: "p",
                typbasetype: 0,
                typreceive: "time_recv",
                typinput: "time_in",
            },
            PgTypeId::TIMESTAMP => PgType {
                oid: 1114,
                typname: "timestamp",
                typnamespace: 11,
                typowner: 10,
                typlen: 8,
                typbyval: true,
                typtype: "b",
                typcategory: "D",
                typisprefered: false,
                typisdefined: true,
                typrelid: 0,
                typsubscript: "-",
                typelem: 0,
                typarray: 0,
                typalign: "d",
                typstorage: "p",
                typbasetype: 0,
                typreceive: "timestamp_recv",
                typinput: "timestamp_in",
            },
            PgTypeId::TIMESTAMPTZ => PgType {
                oid: 1184,
                typname: "timestamptz",
                typnamespace: 11,
                typowner: 10,
                typlen: 8,
                typbyval: true,
                typtype: "b",
                typcategory: "D",
                typisprefered: true,
                typisdefined: true,
                typrelid: 0,
                typsubscript: "-",
                typelem: 0,
                typarray: 0,
                typalign: "d",
                typstorage: "p",
                typbasetype: 0,
                typreceive: "timestamptz_recv",
                typinput: "timestamptz_in",
            },
            PgTypeId::INTERVAL => PgType {
                oid: 1186,
                typname: "interval",
                typnamespace: 11,
                typowner: 10,
                typlen: 16,
                typbyval: false,
                typtype: "b",
                typcategory: "T",
                typisprefered: true,
                typisdefined: true,
                typrelid: 0,
                typsubscript: "-",
                typelem: 0,
                typarray: 1187,
                typalign: "d",
                typstorage: "p",
                typbasetype: 0,
                typreceive: "interval_recv",
                typinput: "interval_in",
            },
            PgTypeId::TIMETZ => PgType {
                oid: 1266,
                typname: "timetz",
                typnamespace: 11,
                typowner: 10,
                typlen: 12,
                typbyval: false,
                typtype: "b",
                typcategory: "D",
                typisprefered: false,
                typisdefined: true,
                typrelid: 0,
                typsubscript: "-",
                typelem: 0,
                typarray: 1270,
                typalign: "d",
                typstorage: "p",
                typbasetype: 0,
                typreceive: "timetz_recv",
                typinput: "timetz_in",
            },
            PgTypeId::NUMERIC => PgType {
                oid: 1700,
                typname: "numeric",
                typnamespace: 11,
                typowner: 10,
                typlen: -1i16,
                typbyval: false,
                typtype: "b",
                typcategory: "N",
                typisprefered: false,
                typisdefined: true,
                typrelid: 0,
                typsubscript: "-",
                typelem: 0,
                typarray: 0,
                typalign: "i",
                typstorage: "m",
                typbasetype: 0,
                typreceive: "numeric_recv",
                typinput: "numeric_in",
            },
            PgTypeId::RECORD => PgType {
                oid: 2249,
                typname: "record",
                typnamespace: 11,
                typowner: 10,
                typlen: -1i16,
                typbyval: false,
                typtype: "p",
                typcategory: "P",
                typisprefered: false,
                typisdefined: true,
                typrelid: 0,
                typsubscript: "-",
                typelem: 0,
                typarray: 2287,
                typalign: "d",
                typstorage: "x",
                typbasetype: 0,
                typreceive: "record_recv",
                typinput: "record_in",
            },
            PgTypeId::ANYARRAY => PgType {
                oid: 2277,
                typname: "anyarray",
                typnamespace: 11,
                typowner: 10,
                typlen: -1i16,
                typbyval: false,
                typtype: "p",
                typcategory: "P",
                typisprefered: false,
                typisdefined: true,
                typrelid: 0,
                typsubscript: "-",
                typelem: 0,
                typarray: 0,
                typalign: "d",
                typstorage: "x",
                typbasetype: 0,
                typreceive: "anyarray_recv",
                typinput: "anyarray_in",
            },
            PgTypeId::ANYELEMENT => PgType {
                oid: 2283,
                typname: "anyelement",
                typnamespace: 11,
                typowner: 10,
                typlen: 4,
                typbyval: true,
                typtype: "p",
                typcategory: "P",
                typisprefered: false,
                typisdefined: true,
                typrelid: 0,
                typsubscript: "-",
                typelem: 0,
                typarray: 0,
                typalign: "i",
                typstorage: "p",
                typbasetype: 0,
                typreceive: "-",
                typinput: "anyelement_in",
            },
            PgTypeId::PGLSN => PgType {
                oid: 3220,
                typname: "pg_lsn",
                typnamespace: 11,
                typowner: 10,
                typlen: 8,
                typbyval: true,
                typtype: "b",
                typcategory: "U",
                typisprefered: false,
                typisdefined: true,
                typrelid: 0,
                typsubscript: "-",
                typelem: 0,
                typarray: 3221,
                typalign: "d",
                typstorage: "p",
                typbasetype: 0,
                typreceive: "pg_lsn_recv",
                typinput: "pg_lsn_in",
            },
            PgTypeId::ANYENUM => PgType {
                oid: 3500,
                typname: "anyenum",
                typnamespace: 11,
                typowner: 10,
                typlen: 4,
                typbyval: true,
                typtype: "p",
                typcategory: "P",
                typisprefered: false,
                typisdefined: true,
                typrelid: 0,
                typsubscript: "-",
                typelem: 0,
                typarray: 0,
                typalign: "i",
                typstorage: "p",
                typbasetype: 0,
                typreceive: "-",
                typinput: "anyenum_in",
            },
            PgTypeId::ANYRANGE => PgType {
                oid: 3831,
                typname: "anyrange",
                typnamespace: 11,
                typowner: 10,
                typlen: -1i16,
                typbyval: false,
                typtype: "p",
                typcategory: "P",
                typisprefered: false,
                typisdefined: true,
                typrelid: 0,
                typsubscript: "-",
                typelem: 0,
                typarray: 0,
                typalign: "d",
                typstorage: "x",
                typbasetype: 0,
                typreceive: "-",
                typinput: "anyrange_in",
            },
            PgTypeId::INT4RANGE => PgType {
                oid: 3904,
                typname: "int4range",
                typnamespace: 11,
                typowner: 10,
                typlen: -1i16,
                typbyval: false,
                typtype: "r",
                typcategory: "R",
                typisprefered: false,
                typisdefined: true,
                typrelid: 0,
                typsubscript: "-",
                typelem: 0,
                typarray: 0,
                typalign: "i",
                typstorage: "x",
                typbasetype: 0,
                typreceive: "range_recv",
                typinput: "range_in",
            },
            PgTypeId::NUMRANGE => PgType {
                oid: 3906,
                typname: "numrange",
                typnamespace: 11,
                typowner: 10,
                typlen: -1i16,
                typbyval: false,
                typtype: "r",
                typcategory: "R",
                typisprefered: false,
                typisdefined: true,
                typrelid: 0,
                typsubscript: "-",
                typelem: 0,
                typarray: 0,
                typalign: "i",
                typstorage: "x",
                typbasetype: 0,
                typreceive: "range_recv",
                typinput: "range_in",
            },
            PgTypeId::TSRANGE => PgType {
                oid: 3908,
                typname: "tsrange",
                typnamespace: 11,
                typowner: 10,
                typlen: -1i16,
                typbyval: false,
                typtype: "r",
                typcategory: "R",
                typisprefered: false,
                typisdefined: true,
                typrelid: 0,
                typsubscript: "-",
                typelem: 0,
                typarray: 0,
                typalign: "d",
                typstorage: "x",
                typbasetype: 0,
                typreceive: "range_recv",
                typinput: "range_in",
            },
            PgTypeId::TSTZRANGE => PgType {
                oid: 3910,
                typname: "tstzrange",
                typnamespace: 11,
                typowner: 10,
                typlen: -1i16,
                typbyval: false,
                typtype: "r",
                typcategory: "R",
                typisprefered: false,
                typisdefined: true,
                typrelid: 0,
                typsubscript: "-",
                typelem: 0,
                typarray: 0,
                typalign: "d",
                typstorage: "x",
                typbasetype: 0,
                typreceive: "range_recv",
                typinput: "range_in",
            },
            PgTypeId::DATERANGE => PgType {
                oid: 3912,
                typname: "daterange",
                typnamespace: 11,
                typowner: 10,
                typlen: -1i16,
                typbyval: false,
                typtype: "r",
                typcategory: "R",
                typisprefered: false,
                typisdefined: true,
                typrelid: 0,
                typsubscript: "-",
                typelem: 0,
                typarray: 0,
                typalign: "i",
                typstorage: "x",
                typbasetype: 0,
                typreceive: "range_recv",
                typinput: "range_in",
            },
            PgTypeId::INT8RANGE => PgType {
                oid: 3926,
                typname: "int8range",
                typnamespace: 11,
                typowner: 10,
                typlen: -1i16,
                typbyval: false,
                typtype: "r",
                typcategory: "R",
                typisprefered: false,
                typisdefined: true,
                typrelid: 0,
                typsubscript: "-",
                typelem: 0,
                typarray: 0,
                typalign: "d",
                typstorage: "x",
                typbasetype: 0,
                typreceive: "range_recv",
                typinput: "range_in",
            },
            PgTypeId::INT4MULTIRANGE => PgType {
                oid: 4451,
                typname: "int4multirange",
                typnamespace: 11,
                typowner: 10,
                typlen: -1i16,
                typbyval: false,
                typtype: "r",
                typcategory: "R",
                typisprefered: false,
                typisdefined: true,
                typrelid: 0,
                typsubscript: "-",
                typelem: 0,
                typarray: 0,
                typalign: "i",
                typstorage: "x",
                typbasetype: 0,
                typreceive: "multirange_recv",
                typinput: "multirange_in",
            },
            PgTypeId::NUMMULTIRANGE => PgType {
                oid: 4532,
                typname: "nummultirange",
                typnamespace: 11,
                typowner: 10,
                typlen: -1i16,
                typbyval: false,
                typtype: "m",
                typcategory: "R",
                typisprefered: false,
                typisdefined: true,
                typrelid: 0,
                typsubscript: "-",
                typelem: 0,
                typarray: 0,
                typalign: "i",
                typstorage: "x",
                typbasetype: 0,
                typreceive: "multirange_recv",
                typinput: "multirange_in",
            },
            PgTypeId::TSMULTIRANGE => PgType {
                oid: 4533,
                typname: "tsmultirange",
                typnamespace: 11,
                typowner: 10,
                typlen: -1i16,
                typbyval: false,
                typtype: "m",
                typcategory: "R",
                typisprefered: false,
                typisdefined: true,
                typrelid: 0,
                typsubscript: "-",
                typelem: 0,
                typarray: 0,
                typalign: "d",
                typstorage: "x",
                typbasetype: 0,
                typreceive: "multirange_recv",
                typinput: "multirange_in",
            },
            PgTypeId::DATEMULTIRANGE => PgType {
                oid: 4535,
                typname: "datemultirange",
                typnamespace: 11,
                typowner: 10,
                typlen: -1i16,
                typbyval: false,
                typtype: "m",
                typcategory: "R",
                typisprefered: false,
                typisdefined: true,
                typrelid: 0,
                typsubscript: "-",
                typelem: 0,
                typarray: 0,
                typalign: "i",
                typstorage: "x",
                typbasetype: 0,
                typreceive: "multirange_recv",
                typinput: "multirange_in",
            },
            PgTypeId::INT8MULTIRANGE => PgType {
                oid: 4536,
                typname: "int8multirange",
                typnamespace: 11,
                typowner: 10,
                typlen: -1i16,
                typbyval: false,
                typtype: "m",
                typcategory: "R",
                typisprefered: false,
                typisdefined: true,
                typrelid: 0,
                typsubscript: "-",
                typelem: 0,
                typarray: 0,
                typalign: "d",
                typstorage: "x",
                typbasetype: 0,
                typreceive: "multirange_recv",
                typinput: "multirange_in",
            },
            PgTypeId::CHARACTERDATA => PgType {
                oid: 13408,
                typname: "character_data",
                typnamespace: 13000,
                typowner: 10,
                typlen: -1i16,
                typbyval: false,
                typtype: "d",
                typcategory: "S",
                typisprefered: false,
                typisdefined: true,
                typrelid: 0,
                typsubscript: "-",
                typelem: 0,
                typarray: 0,
                typalign: "i",
                typstorage: "x",
                typbasetype: 1043,
                typreceive: "domain_recv",
                typinput: "domain_in",
            },
            PgTypeId::SQLIDENTIFIER => PgType {
                oid: 13410,
                typname: "sql_identifier",
                typnamespace: 13000,
                typowner: 10,
                typlen: 64,
                typbyval: false,
                typtype: "d",
                typcategory: "S",
                typisprefered: false,
                typisdefined: true,
                typrelid: 0,
                typsubscript: "-",
                typelem: 0,
                typarray: 0,
                typalign: "c",
                typstorage: "p",
                typbasetype: 19,
                typreceive: "domain_recv",
                typinput: "domain_in",
            },
        }
    }

    pub open spec fn spec_oid(self) -> i32 {
        self.descriptor().oid
    }

    /// The identifier of the type with the given OID; `0` gives `UNSPECIFIED`.
    pub fn from_oid(oid: i32) -> (r: Option<PgTypeId>)
        ensures
            oid_lookup(oid, r),
    {
        match oid {
            0 => Some(PgTypeId::UNSPECIFIED),
            16 => Some(PgTypeId::BOOL),
            17 => Some(PgTypeId::BYTEA),
            19 => Some(PgTypeId::NAME),
            20 => Some(PgTypeId::INT8),
            21 => Some(PgTypeId::INT2),
            23 => Some(PgTypeId::INT4),
            25 => Some(PgTypeId::TEXT),
            26 => Some(PgTypeId::OID),
            27 => Some(PgTypeId::TID),
            83 => Some(PgTypeId::PGCLASS),
            700 => Some(PgTypeId::FLOAT4),
            701 => Some(PgTypeId::FLOAT8),
            790 => Some(PgTypeId::MONEY),
            869 => Some(PgTypeId::INET),
            1000 => Some(PgTypeId::ARRAYBOOL),
            1001 => Some(PgTypeId::ARRAYBYTEA),
            1005 => Some(PgTypeId::ARRAYINT2),
            1007 => Some(PgTypeId::ARRAYINT4),
            1009 => Some(PgTypeId::ARRAYTEXT),
            1016 => Some(PgTypeId::ARRAYINT8),
            1021 => Some(PgTypeId::ARRAYFLOAT4),
            1022 => Some(PgTypeId::ARRAYFLOAT8),
            1033 => Some(PgTypeId::ACLITEM),
            1034 => Some(PgTypeId::ARRAYACLITEM),
            1042 => Some(PgTypeId::BPCHAR),
            1043 => Some(PgTypeId::VARCHAR),
            1082 => Some(PgTypeId::DATE),
            1083 => Some(PgTypeId::TIME),
            1114 => Some(PgTypeId::TIMESTAMP),
            1184 => Some(PgTypeId::TIMESTAMPTZ),
            1186 => Some(PgTypeId::INTERVAL),
            1266 => Some(PgTypeId::TIMETZ),
            1700 => Some(PgTypeId::NUMERIC),
            2249 => Some(PgTypeId::RECORD),
            2277 => Some(PgTypeId::ANYARRAY),
            2283 => Some(PgTypeId::ANYELEMENT),
            3220 => Some(PgTypeId::PGLSN),
            3500 => Some(PgTypeId::ANYENUM),
            3831 => Some(PgTypeId::ANYRANGE),
            3904 => Some(PgTypeId::INT4RANGE),
            3906 => Some(PgTypeId::NUMRANGE),
            3908 => Some(PgTypeId::TSRANGE),
            3910 => Some(PgTypeId::TSTZRANGE),
            3912 => Some(PgTypeId::DATERANGE),
            3926 => Some(PgTypeId::INT8RANGE),
            4451 => Some(PgTypeId::INT4MULTIRANGE),
            4532 => Some(PgTypeId::NUMMULTIRANGE),
            4533 => Some(PgTypeId::TSMULTIRANGE),
            4535 => Some(PgTypeId::DATEMULTIRANGE),
            4536 => Some(PgTypeId::INT8MULTIRANGE),
            13408 => Some(PgTypeId::CHARACTERDATA),
            13410 => Some(PgTypeId::SQLIDENTIFIER),
            _ => None,
        }
    }

    /// The descriptor of this identifier.
    pub fn to_type(self) -> (r: PgType)
        ensures
            r == self.descriptor(),
    {
        PgType::get_by_tid(self)
    }
}

impl PgType {
    /// The `pg_proc` OID of this type's receive function (0 when unknown).
    pub fn get_typreceive_oid(&self) -> (r: i32)
        ensures
            r == receive_proc_oid(self.typreceive@),
    {
        if str_eq(self.typreceive, "array_recv") {
            2400
        } else if str_eq(self.typreceive, "boolrecv") {
            2436
        } else if str_eq(self.typreceive, "float4recv") {
            2424
        } else if str_eq(self.typreceive, "float8recv") {
            2426
        } else if str_eq(self.typreceive, "int2recv") {
            2404
        } else if str_eq(self.typreceive, "int4recv") {
            2406
        } else if str_eq(self.typreceive, "int8recv") {
            2408
        } else if str_eq(self.typreceive, "numeric_recv") {
            2460
        } else if str_eq(self.typreceive, "textrecv") {
            2414
        } else if str_eq(self.typreceive, "timestamp_recv") {
            2474
        } else if str_eq(self.typreceive, "varcharrecv") {
            2432
        } else {
            0
        }
    }

    /// Every type of the catalog is taken to have a binary encoding.
    pub fn is_binary_supported(&self) -> (r: bool)
        ensures
            r,
    {
        true
    }

    /// The descriptor of `tid`; defined for every identifier.
    pub fn get_by_tid(tid: PgTypeId) -> (r: PgType)
        ensures
            r == tid.descriptor(),
    {
        match tid {
            PgTypeId::UNSPECIFIED => PgType {
                oid: 0,
                typname: "unspecified",
                typnamespace: 11,
                typowner: 10,
                typlen: 1,
                typbyval: true,
                typtype: "b",
                typcategory: "B",
                typisprefered: true,
                typisdefined: true,
                typrelid: 0,
                typsubscript: "-",
                typelem: 0,
                typarray: 0,
                typalign: "-",
                typstorage: "-",
                typbasetype: 0,
                typreceive: "-",
                typinput: "-",
            },
            PgTypeId::BOOL => PgType {
                oid: 16,
                typname: "bool",
                typnamespace: 11,
                typowner: 10,
                typlen: 1,
                typbyval: true,
                typtype: "b",
                typcategory: "B",
                typisprefered: true,
                typisdefined: true,
                typrelid: 0,
                typsubscript: "-",
                typelem: 0,
                typarray: 0,
                typalign: "c",
                typstorage: "p",
                typbasetype: 0,
                typreceive: "boolrecv",
                typinput: "boolin",
            },
            PgTypeId::BYTEA => PgType {
                oid: 17,
                typname: "bytea",
                typnamespace: 11,
                typowner: 10,
                typlen: -1i16,
                typbyval: false,
                typtype: "b",
                typcategory: "U",
                typisprefered: false,
                typisdefined: true,
                typrelid: 0,
                typsubscript: "-",
                typelem: 0,
                typarray: 0,
                typalign: "i",
                typstorage: "x",
                typbasetype: 0,
                typreceive: "bytearecv",
                typinput: "byteain",
            },
            PgTypeId::NAME => PgType {
                oid: 19,
                typname: "name",
                typnamespace: 11,
                typowner: 10,
                typlen: 64,
                typbyval: false,
                typtype: "b",
                typcategory: "S",
                typisprefered: false,
                typisdefined: true,
                typrelid: 0,
                typsubscript: "raw_array_subscript_handler",
                typelem: 0,
                typarray: 0,
                typalign: "c",
                typstorage: "p",
                typbasetype: 0,
                typreceive: "namerecv",
                typinput: "namein",
            },
            PgTypeId::INT8 => PgType {
                oid: 20,
                typname: "int8",
                typnamespace: 11,
                typowner: 10,
                typlen: 8,
                typbyval: true,
                typtype: "b",
                typcategory: "N",
                typisprefered: false,
                typisdefined: true,
                typrelid: 0,
                typsubscript: "-",
                typelem: 0,
                typarray: 0,
                typalign: "d",
                typstorage: "p",
                typbasetype: 0,
                typreceive: "int8recv",
                typinput: "int8in",
            },
            PgTypeId::INT2 => PgType {
                oid: 21,
                typname: "int2",
                typnamespace: 11,
                typowner: 10,
                typlen: 2,
                typbyval: true,
                typtype: "b",
                typcategory: "N",
                typisprefered: false,
                typisdefined: true,
                typrelid: 0,
                typsubscript: "-",
                typelem: 0,
                typarray: 0,
                typalign: "s",
                typstorage: "p",
                typbasetype: 0,
                typreceive: "int2recv",
                typinput: "int2in",
            },
            PgTypeId::INT4 => PgType {
                oid: 23,
                typname: "int4",
                typnamespace: 11,
                typowner: 10,
                typlen: 4,
                typbyval: true,
                typtype: "b",
                typcategory: "N",
                typisprefered: false,
                typisdefined: true,
                typrelid: 0,
                typsubscript: "-",
                typelem: 0,
                typarray: 0,
                typalign: "i",
                typstorage: "p",
                typbasetype: 0,
                typreceive: "int4recv",
                typinput: "int4in",
            },
            PgTypeId::TEXT => PgType {
                oid: 25,
                typname: "text",
                typnamespace: 11,
                typowner: 10,
                typlen: -1i16,
                typbyval: false,
                typtype: "b",
                typcategory: "S",
                typisprefered: true,
                typisdefined: true,
                typrelid: 0,
                typsubscript: "-",
                typelem: 0,
                typarray: 0,
                typalign: "i",
                typstorage: "x",
                typbasetype: 0,
                typreceive: "textrecv",
                typinput: "textin",
            },
            PgTypeId::OID => PgType {
                oid: 26,
                typname: "oid",
                typnamespace: 11,
                typowner: 10,
                typlen: 4,
                typbyval: true,
                typtype: "b",
                typcategory: "N",
                typisprefered: true,
                typisdefined: true,
                typrelid: 0,
                typsubscript: "-",
                typelem: 0,
                typarray: 1028,
                typalign: "i",
                typstorage: "p",
                typbasetype: 0,
                typreceive: "oidrecv",
                typinput: "oidin",
            },
            PgTypeId::TID => PgType {
                oid: 27,
                typname: "tid",
                typnamespace: 11,
                typowner: 10,
                typlen: 6,
                typbyval: false,
                typtype: "b",
                typcategory: "U",
                typisprefered: false,
                typisdefined: true,
                typrelid: 0,
                typsubscript: "-",
                typelem: 0,
                typarray: 1010,
                typalign: "s",
                typstorage: "p",
                typbasetype: 0,
                typreceive: "tidrecv",
                typinput: "tidin",
            },
            PgTypeId::PGCLASS => PgType {
                oid: 83,
                typname: "pg_class",
                typnamespace: 11,
                typowner: 10,
                typlen: -1i16,
                typbyval: false,
                typtype: "c",
                typcategory: "C",
                typisprefered: false,
                typisdefined: true,
                typrelid: 1259,
                typsubscript: "-",
                typelem: 0,
                typarray: 273,
                typalign: "d",
                typstorage: "x",
                typbasetype: 0,
                typreceive: "record_recv",
                typinput: "record_in",
            },
            PgTypeId::FLOAT4 => PgType {
                oid: 700,
                typname: "float4",
                typnamespace: 11,
                typowner: 10,
                typlen: 4,
                typbyval: true,
                typtype: "b",
                typcategory: "N",
                typisprefered: false,
                typisdefined: true,
                typrelid: 0,
                typsubscript: "-",
                typelem: 0,
                typarray: 1021,
                typalign: "i",
                typstorage: "p",
                typbasetype: 0,
                typreceive: "float4recv",
                typinput: "float4in",
            },
            PgTypeId::FLOAT8 => PgType {
                oid: 701,
                typname: "float8",
                typnamespace: 11,
                typowner: 10,
                typlen: 8,
                typbyval: true,
                typtype: "b",
                typcategory: "N",
                typisprefered: true,
                typisdefined: true,
                typrelid: 0,
                typsubscript: "-",
                typelem: 0,
                typarray: 1022,
                typalign: "d",
                typstorage: "p",
                typbasetype: 0,
                typreceive: "float8recv",
                typinput: "float8in",
            },
            PgTypeId::MONEY => PgType {
                oid: 790,
                typname: "money",
                typnamespace: 11,
                typowner: 10,
                typlen: 8,
                typbyval: true,
                typtype: "b",
                typcategory: "N",
                typisprefered: false,
                typisdefined: true,
                typrelid: 0,
                typsubscript: "-",
                typelem: 0,
                typarray: 791,
                typalign: "d",
                typstorage: "p",
                typbasetype: 0,
                typreceive: "cash_recv",
                typinput: "cash_in",
            },
            PgTypeId::INET => PgType {
                oid: 869,
                typname: "inet",
                typnamespace: 11,
                typowner: 10,
                typlen: -1i16,
                typbyval: false,
                typtype: "b",
                typcategory: "I",
                typisprefered: true,
                typisdefined: true,
                typrelid: 0,
                typsubscript: "-",
                typelem: 0,
                typarray: 1041,
                typalign: "i",
                typstorage: "m",
                typbasetype: 0,
                typreceive: "inet_recv",
                typinput: "inet_in",
            },
            PgTypeId::ARRAYBOOL => PgType {
                oid: 1000,
                typname: "_bool",
                typnamespace: 11,
                typowner: 10,
                typlen: -1i16,
                typbyval: false,
                typtype: "b",
                typcategory: "A",
                typisprefered: false,
                typisdefined: true,
                typrelid: 0,
                typsubscript: "array_subscript_handler",
                typelem: 16,
                typarray: 0,
                typalign: "i",
                typstorage: "x",
                typbasetype: 0,
                typreceive: "array_recv",
                typinput: "array_in",
            },
            PgTypeId::ARRAYBYTEA => PgType {
                oid: 1001,
                typname: "_bytea",
                typnamespace: 11,
                typowner: 10,
                typlen: -1i16,
                typbyval: false,
                typtype: "b",
                typcategory: "A",
                typisprefered: false,
                typisdefined: true,
                typrelid: 0,
                typsubscript: "array_subscript_handler",
                typelem: 17,
                typarray: 0,
                typalign: "i",
                typstorage: "x",
                typbasetype: 0,
                typreceive: "array_recv",
                typinput: "array_in",
            },
            PgTypeId::ARRAYINT2 => PgType {
                oid: 1005,
                typname: "_int2",
                typnamespace: 11,
                typowner: 10,
                typlen: -1i16,
                typbyval: false,
                typtype: "b",
                typcategory: "A",
                typisprefered: false,
                typisdefined: true,
                typrelid: 0,
                typsubscript: "array_subscript_handler",
                typelem: 21,
                typarray: 0,
                typalign: "i",
                typstorage: "x",
                typbasetype: 0,
                typreceive: "array_recv",
                typinput: "array_in",
            },
            PgTypeId::ARRAYINT4 => PgType {
                oid: 1007,
                typname: "_int4",
                typnamespace: 11,
                typowner: 10,
                typlen: -1i16,
                typbyval: false,
                typtype: "b",
                typcategory: "A",
                typisprefered: false,
                typisdefined: true,
                typrelid: 0,
                typsubscript: "array_subscript_handler",
                typelem: 23,
                typarray: 0,
                typalign: "i",
                typstorage: "x",
                typbasetype: 0,
                typreceive: "array_recv",
                typinput: "array_in",
            },
            PgTypeId::ARRAYTEXT => PgType {
                oid: 1009,
                typname: "_text",
                typnamespace: 11,
                typowner: 10,
                typlen: -1i16,
                typbyval: false,
                typtype: "b",
                typcategory: "A",
                typisprefered: false,
                typisdefined: true,
                typrelid: 0,
                typsubscript: "array_subscript_handler",
                typelem: 25,
                typarray: 0,
                typalign: "i",
                typstorage: "x",
                typbasetype: 0,
                typreceive: "array_recv",
                typinput: "array_in",
            },
            PgTypeId::ARRAYINT8 => PgType {
                oid: 1016,
                typname: "_int8",
                typnamespace: 11,
                typowner: 10,
                typlen: -1i16,
                typbyval: false,
                typtype: "b",
                typcategory: "A",
                typisprefered: false,
                typisdefined: true,
                typrelid: 0,
                typsubscript: "array_subscript_handler",
                typelem: 20,
                typarray: 0,
                typalign: "d",
                typstorage: "x",
                typbasetype: 0,
                typreceive: "array_recv",
                typinput: "array_in",
            },
            PgTypeId::ARRAYFLOAT4 => PgType {
                oid: 1021,
                typname: "_float4",
                typnamespace: 11,
                typowner: 10,
                typlen: -1i16,
                typbyval: false,
                typtype: "b",
                typcategory: "A",
                typisprefered: false,
                typisdefined: true,
                typrelid: 0,
                typsubscript: "array_subscript_handler",
                typelem: 700,
                typarray: 0,
                typalign: "i",
                typstorage: "x",
                typbasetype: 0,
                typreceive: "array_recv",
                typinput: "array_in",
            },
            PgTypeId::ARRAYFLOAT8 => PgType {
                oid: 1022,
                typname: "_float8",
                typnamespace: 11,
                typowner: 10,
                typlen: -1i16,
                typbyval: false,
                typtype: "b",
                typcategory: "A",
                typisprefered: false,
                typisdefined: true,
                typrelid: 0,
                typsubscript: "array_subscript_handler",
                typelem: 701,
                typarray: 0,
                typalign: "d",
                typstorage: "x",
                typbasetype: 0,
                typreceive: "array_recv",
                typinput: "array_in",
            },
            PgTypeId::ACLITEM => PgType {
                oid: 1033,
                typname: "aclitem",
                typnamespace: 11,
                typowner: 10,
                typlen: 12,
                typbyval: false,
                typtype: "b",
                typcategory: "U",
                typisprefered: false,
                typisdefined: true,
                typrelid: 0,
                typsubscript: "-",
                typelem: 0,
                typarray: 1034,
                typalign: "i",
                typstorage: "p",
                typbasetype: 0,
                typreceive: "-",
                typinput: "aclitemin",
            },
            PgTypeId::ARRAYACLITEM => PgType {
                oid: 1034,
                typname: "_aclitem",
                typnamespace: 11,
                typowner: 10,
                typlen: -1i16,
                typbyval: false,
                typtype: "b",
                typcategory: "A",
                typisprefered: false,
                typisdefined: true,
                typrelid: 0,
                typsubscript: "array_subscript_handler",
                typelem: 1033,
                typarray: 0,
                typalign: "i",
                typstorage: "x",
                typbasetype: 0,
                typreceive: "array_recv",
                typinput: "array_in",
            },
            PgTypeId::BPCHAR => PgType {
                oid: 1042,
                typname: "bpchar",
                typnamespace: 11,
                typowner: 10,
                typlen: -1i16,
                typbyval: false,
                typtype: "b",
                typcategory: "S",
                typisprefered: false,
                typisdefined: true,
                typrelid: 0,
                typsubscript: "-",
                typelem: 0,
                typarray: 1014,
                typalign: "i",
                typstorage: "x",
                typbasetype: 0,
                typreceive: "bpcharrecv",
                typinput: "bpcharin",
            },
            PgTypeId::VARCHAR => PgType {
                oid: 1043,
                typname: "varchar",
                typnamespace: 11,
                typowner: 10,
                typlen: -1i16,
                typbyval: false,
                typtype: "b",
                typcategory: "S",
                typisprefered: false,
                typisdefined: true,
                typrelid: 0,
                typsubscript: "-",
                typelem: 0,
                typarray: 0,
                typalign: "i",
                typstorage: "x",
                typbasetype: 0,
                typreceive: "varcharrecv",
                typinput: "varcharin",
            },
            PgTypeId::DATE => PgType {
                oid: 1082,
                typname: "date",
                typnamespace: 11,
                typowner: 10,
                typlen: 4,
                typbyval: true,
                typtype: "b",
                typcategory: "D",
                typisprefered: false,
                typisdefined: true,
                typrelid: 0,
                typsubscript: "-",
                typelem: 0,
                typarray: 0,
                typalign: "i",
                typstorage: "p",
                typbasetype: 0,
                typreceive: "date_recv",
                typinput: "date_in",
            },
            PgTypeId::TIME => PgType {
                oid: 1083,
                typname: "time",
                typnamespace: 11,
                typowner: 10,
                typlen: 8,
                typbyval: true,
                typtype: "b",
                typcategory: "D",
                typisprefered: false,
                typisdefined: true,
                typrelid: 0,
                typsubscript: "-",
                typelem: 0,
                typarray: 1183,
                typalign: "d",
                typstorage: "p",
                typbasetype: 0,
                typreceive: "time_recv",
                typinput: "time_in",
            },
            PgTypeId::TIMESTAMP => PgType {
                oid: 1114,
                typname: "timestamp",
                typnamespace: 11,
                typowner: 10,
                typlen: 8,
                typbyval: true,
                typtype: "b",
                typcategory: "D",
                typisprefered: false,
                typisdefined: true,
                typrelid: 0,
                typsubscript: "-",
                typelem: 0,
                typarray: 0,
                typalign: "d",
                typstorage: "p",
                typbasetype: 0,
                typreceive: "timestamp_recv",
                typinput: "timestamp_in",
            },
            PgTypeId::TIMESTAMPTZ => PgType {
                oid: 1184,
                typname: "timestamptz",
                typnamespace: 11,
                typowner: 10,
                typlen: 8,
                typbyval: true,
                typtype: "b",
                typcategory: "D",
                typisprefered: true,
                typisdefined: true,
                typrelid: 0,
                typsubscript: "-",
                typelem: 0,
                typarray: 0,
                typalign: "d",
                typstorage: "p",
                typbasetype: 0,
                typreceive: "timestamptz_recv",
                typinput: "timestamptz_in",
            },
            PgTypeId::INTERVAL => PgType {
                oid: 1186,
                typname: "interval",
                typnamespace: 11,
                typowner: 10,
                typlen: 16,
                typbyval: false,
                typtype: "b",
                typcategory: "T",
                typisprefered: true,
                typisdefined: true,
                typrelid: 0,
                typsubscript: "-",
                typelem: 0,
                typarray: 1187,
                typalign: "d",
                typstorage: "p",
                typbasetype: 0,
                typreceive: "interval_recv",
                typinput: "interval_in",
            },
            PgTypeId::TIMETZ => PgType {
                oid: 1266,
                typname: "timetz",
                typnamespace: 11,
                typowner: 10,
                typlen: 12,
                typbyval: false,
                typtype: "b",
                typcategory: "D",
                typisprefered: false,
                typisdefined: true,
                typrelid: 0,
                typsubscript: "-",
                typelem: 0,
                typarray: 1270,
                typalign: "d",
                typstorage: "p",
                typbasetype: 0,
                typreceive: "timetz_recv",
                typinput: "timetz_in",
            },
            PgTypeId::NUMERIC => PgType {
                oid: 1700,
                typname: "numeric",
                typnamespace: 11,
                typowner: 10,
                typlen: -1i16,
                typbyval: false,
                typtype: "b",
                typcategory: "N",
                typisprefered: false,
                typisdefined: true,
                typrelid: 0,
                typsubscript: "-",
                typelem: 0,
                typarray: 0,
                typalign: "i",
                typstorage: "m",
                typbasetype: 0,
                typreceive: "numeric_recv",
                typinput: "numeric_in",
            },
            PgTypeId::RECORD => PgType {
                oid: 2249,
                typname: "record",
                typnamespace: 11,
                typowner: 10,
                typlen: -1i16,
                typbyval: false,
                typtype: "p",
                typcategory: "P",
                typisprefered: false,
                typisdefined: true,
                typrelid: 0,
                typsubscript: "-",
                typelem: 0,
                typarray: 2287,
                typalign: "d",
                typstorage: "x",
                typbasetype: 0,
                typreceive: "record_recv",
                typinput: "record_in",
            },
            PgTypeId::ANYARRAY => PgType {
                oid: 2277,
                typname: "anyarray",
                typnamespace: 11,
                typowner: 10,
                typlen: -1i16,
                typbyval: false,
                typtype: "p",
                typcategory: "P",
                typisprefered: false,
                typisdefined: true,
                typrelid: 0,
                typsubscript: "-",
                typelem: 0,
                typarray: 0,
                typalign: "d",
                typstorage: "x",
                typbasetype: 0,
                typreceive: "anyarray_recv",
                typinput: "anyarray_in",
            },
            PgTypeId::ANYELEMENT => PgType {
                oid: 2283,
                typname: "anyelement",
                typnamespace: 11,
                typowner: 10,
                typlen: 4,
                typbyval: true,
                typtype: "p",
                typcategory: "P",
                typisprefered: false,
                typisdefined: true,
                typrelid: 0,
                typsubscript: "-",
                typelem: 0,
                typarray: 0,
                typalign: "i",
                typstorage: "p",
                typbasetype: 0,
                typreceive: "-",
                typinput: "anyelement_in",
            },
            PgTypeId::PGLSN => PgType {
                oid: 3220,
                typname: "pg_lsn",
                typnamespace: 11,
                typowner: 10,
                typlen: 8,
                typbyval: true,
                typtype: "b",
                typcategory: "U",
                typisprefered: false,
                typisdefined: true,
                typrelid: 0,
                typsubscript: "-",
                typelem: 0,
                typarray: 3221,
                typalign: "d",
                typstorage: "p",
                typbasetype: 0,
                typreceive: "pg_lsn_recv",
                typinput: "pg_lsn_in",
            },
            PgTypeId::ANYENUM => PgType {
                oid: 3500,
                typname: "anyenum",
                typnamespace: 11,
                typowner: 10,
                typlen: 4,
                typbyval: true,
                typtype: "p",
                typcategory: "P",
                typisprefered: false,
                typisdefined: true,
                typrelid: 0,
                typsubscript: "-",
                typelem: 0,
                typarray: 0,
                typalign: "i",
                typstorage: "p",
                typbasetype: 0,
                typreceive: "-",
                typinput: "anyenum_in",
            },
            PgTypeId::ANYRANGE => PgType {
                oid: 3831,
                typname: "anyrange",
                typnamespace: 11,
                typowner: 10,
                typlen: -1i16,
                typbyval: false,
                typtype: "p",
                typcategory: "P",
                typisprefered: false,
                typisdefined: true,
                typrelid: 0,
                typsubscript: "-",
                typelem: 0,
                typarray: 0,
                typalign: "d",
                typstorage: "x",
                typbasetype: 0,
                typreceive: "-",
                typinput: "anyrange_in",
            },
            PgTypeId::INT4RANGE => PgType {
                oid: 3904,
                typname: "int4range",
                typnamespace: 11,
                typowner: 10,
                typlen: -1i16,
                typbyval: false,
                typtype: "r",
                typcategory: "R",
                typisprefered: false,
                typisdefined: true,
                typrelid: 0,
                typsubscript: "-",
                typelem: 0,
                typarray: 0,
                typalign: "i",
                typstorage: "x",
                typbasetype: 0,
                typreceive: "range_recv",
                typinput: "range_in",
            },
            PgTypeId::NUMRANGE => PgType {
                oid: 3906,
                typname: "numrange",
                typnamespace: 11,
                typowner: 10,
                typlen: -1i16,
                typbyval: false,
                typtype: "r",
                typcategory: "R",
                typisprefered: false,
                typisdefined: true,
                typrelid: 0,
                typsubscript: "-",
                typelem: 0,
                typarray: 0,
                typalign: "i",
                typstorage: "x",
                typbasetype: 0,
                typreceive: "range_recv",
                typinput: "range_in",
            },
            PgTypeId::TSRANGE => PgType {
                oid: 3908,
                typname: "tsrange",
                typnamespace: 11,
                typowner: 10,
                typlen: -1i16,
                typbyval: false,
                typtype: "r",
                typcategory: "R",
                typisprefered: false,
                typisdefined: true,
                typrelid: 0,
                typsubscript: "-",
                typelem: 0,
                typarray: 0,
                typalign: "d",
                typstorage: "x",
                typbasetype: 0,
                typreceive: "range_recv",
                typinput: "range_in",
            },
            PgTypeId::TSTZRANGE => PgType {
                oid: 3910,
                typname: "tstzrange",
                typnamespace: 11,
                typowner: 10,
                typlen: -1i16,
                typbyval: false,
                typtype: "r",
                typcategory: "R",
                typisprefered: false,
                typisdefined: true,
                typrelid: 0,
                typsubscript: "-",
                typelem: 0,
                typarray: 0,
                typalign: "d",
                typstorage: "x",
                typbasetype: 0,
                typreceive: "range_recv",
                typinput: "range_in",
            },
            PgTypeId::DATERANGE => PgType {
                oid: 3912,
                typname: "daterange",
                typnamespace: 11,
                typowner: 10,
                typlen: -1i16,
                typbyval: false,
                typtype: "r",
                typcategory: "R",
                typisprefered: false,
                typisdefined: true,
                typrelid: 0,
                typsubscript: "-",
                typelem: 0,
                typarray: 0,
                typalign: "i",
                typstorage: "x",
                typbasetype: 0,
                typreceive: "range_recv",
                typinput: "range_in",
            },
            PgTypeId::INT8RANGE => PgType {
                oid: 3926,
                typname: "int8range",
                typnamespace: 11,
                typowner: 10,
                typlen: -1i16,
                typbyval: false,
                typtype: "r",
                typcategory: "R",
                typisprefered: false,
                typisdefined: true,
                typrelid: 0,
                typsubscript: "-",
                typelem: 0,
                typarray: 0,
                typalign: "d",
                typstorage: "x",
                typbasetype: 0,
                typreceive: "range_recv",
                typinput: "range_in",
            },
            PgTypeId::INT4MULTIRANGE => PgType {
                oid: 4451,
                typname: "int4multirange",
                typnamespace: 11,
                typowner: 10,
                typlen: -1i16,
                typbyval: false,
                typtype: "r",
                typcategory: "R",
                typisprefered: false,
                typisdefined: true,
                typrelid: 0,
                typsubscript: "-",
                typelem: 0,
                typarray: 0,
                typalign: "i",
                typstorage: "x",
                typbasetype: 0,
                typreceive: "multirange_recv",
                typinput: "multirange_in",
            },
            PgTypeId::NUMMULTIRANGE => PgType {
                oid: 4532,
                typname: "nummultirange",
                typnamespace: 11,
                typowner: 10,
                typlen: -1i16,
                typbyval: false,
                typtype: "m",
                typcategory: "R",
                typisprefered: false,
                typisdefined: true,
                typrelid: 0,
                typsubscript: "-",
                typelem: 0,
                typarray: 0,
                typalign: "i",
                typstorage: "x",
                typbasetype: 0,
                typreceive: "multirange_recv",
                typinput: "multirange_in",
            },
            PgTypeId::TSMULTIRANGE => PgType {
                oid: 4533,
                typname: "tsmultirange",
                typnamespace: 11,
                typowner: 10,
                typlen: -1i16,
                typbyval: false,
                typtype: "m",
                typcategory: "R",
                typisprefered: false,
                typisdefined: true,
                typrelid: 0,
                typsubscript: "-",
                typelem: 0,
                typarray: 0,
                typalign: "d",
                typstorage: "x",
                typbasetype: 0,
                typreceive: "multirange_recv",
                typinput: "multirange_in",
            },
            PgTypeId::DATEMULTIRANGE => PgType {
                oid: 4535,
                typname: "datemultirange",
                typnamespace: 11,
                typowner: 10,
                typlen: -1i16,
                typbyval: false,
                typtype: "m",
                typcategory: "R",
                typisprefered: false,
                typisdefined: true,
                typrelid: 0,
                typsubscript: "-",
                typelem: 0,
                typarray: 0,
                typalign: "i",
                typstorage: "x",
                typbasetype: 0,
                typreceive: "multirange_recv",
                typinput: "multirange_in",
            },
            PgTypeId::INT8MULTIRANGE => PgType {
                oid: 4536,
                typname: "int8multirange",
                typnamespace: 11,
                typowner: 10,
                typlen: -1i16,
                typbyval: false,
                typtype: "m",
                typcategory: "R",
                typisprefered: false,
                typisdefined: true,
                typrelid: 0,
                typsubscript: "-",
                typelem: 0,
                typarray: 0,
                typalign: "d",
                typstorage: "x",
                typbasetype: 0,
                typreceive: "multirange_recv",
                typinput: "multirange_in",
            },
            PgTypeId::CHARACTERDATA => PgType {
                oid: 13408,
                typname: "character_data",
                typnamespace: 13000,
                typowner: 10,
                typlen: -1i16,
                typbyval: false,
                typtype: "d",
                typcategory: "S",
                typisprefered: false,
                typisdefined: true,
                typrelid: 0,
                typsubscript: "-",
                typelem: 0,
                typarray: 0,
                typalign: "i",
                typstorage: "x",
                typbasetype: 1043,
                typreceive: "domain_recv",
                typinput: "domain_in",
            },
            PgTypeId::SQLIDENTIFIER => PgType {
                oid: 13410,
                typname: "sql_identifier",
                typnamespace: 13000,
                typowner: 10,
                typlen: 64,
                typbyval: false,
                typtype: "d",
                typcategory: "S",
                typisprefered: false,
                typisdefined: true,
                typrelid: 0,
                typsubscript: "-",
                typelem: 0,
                typarray: 0,
                typalign: "c",
                typstorage: "p",
                typbasetype: 19,
                typreceive: "domain_recv",
                typinput: "domain_in",
            },
        }
    }

    /// The descriptors of every identifier but `UNSPECIFIED`, in declaration order.
    pub fn get_all() -> (r: Vec<PgType>)
        ensures
            r@.len() == listed_type_ids().len(),
            forall|i: int| 0 <= i < r@.len() ==> r@[i] == (#[trigger] listed_type_ids()[i]).descriptor(),
    {
        let ids: Vec<PgTypeId> = vec![
            PgTypeId::BOOL,
            PgTypeId::BYTEA,
            PgTypeId::NAME,
            PgTypeId::INT8,
            PgTypeId::INT2,
            PgTypeId::INT4,
            PgTypeId::TEXT,
            PgTypeId::OID,
            PgTypeId::TID,
            PgTypeId::PGCLASS,
            PgTypeId::FLOAT4,
            PgTypeId::FLOAT8,
            PgTypeId::MONEY,
            PgTypeId::INET,
            PgTypeId::ARRAYBOOL,
            PgTypeId::ARRAYBYTEA,
            PgTypeId::ARRAYINT2,
            PgTypeId::ARRAYINT4,
            PgTypeId::ARRAYTEXT,
            PgTypeId::ARRAYINT8,
            PgTypeId::ARRAYFLOAT4,
            PgTypeId::ARRAYFLOAT8,
            PgTypeId::ACLITEM,
            PgTypeId::ARRAYACLITEM,
            PgTypeId::BPCHAR,
            PgTypeId::VARCHAR,
            PgTypeId::DATE,
            PgTypeId::TIME,
            PgTypeId::TIMESTAMP,
            PgTypeId::TIMESTAMPTZ,
            PgTypeId::INTERVAL,
            PgTypeId::TIMETZ,
            PgTypeId::NUMERIC,
            PgTypeId::RECORD,
            PgTypeId::ANYARRAY,
            PgTypeId::ANYELEMENT,
            PgTypeId::PGLSN,
            PgTypeId::ANYENUM,
            PgTypeId::ANYRANGE,
            PgTypeId::INT4RANGE,
            PgTypeId::NUMRANGE,
            PgTypeId::TSRANGE,
            PgTypeId::TSTZRANGE,
            PgTypeId::DATERANGE,
            PgTypeId::INT8RANGE,
            PgTypeId::INT4MULTIRANGE,
            PgTypeId::NUMMULTIRANGE,
            PgTypeId::TSMULTIRANGE,
            PgTypeId::DATEMULTIRANGE,
            PgTypeId::INT8MULTIRANGE,
            PgTypeId::CHARACTERDATA,
            PgTypeId::SQLIDENTIFIER,
        ];
        assert(ids@ =~= listed_type_ids());
        let mut all: Vec<PgType> = Vec::new();
        let mut i: usize = 0;
        while i < ids.len()
            invariant
                ids@ == listed_type_ids(),
                i <= ids@.len(),
                all@.len() == i,
                forall|j: int| 0 <= j < i ==> all@[j] == (#[trigger] ids@[j]).descriptor(),
            decreases ids@.len() - i,
        {
            all.push(PgType::get_by_tid(ids[i]));
            i = i + 1;
        }
        all
    }
}

/// No two identifiers of the catalog share an OID.
pub proof fn lemma_oid_unique(a: PgTypeId, b: PgTypeId)
    requires
        a.spec_oid() == b.spec_oid(),
    ensures
        a == b,
{
}

/// Looking up the OID of any identifier's descriptor gives that identifier back.
pub proof fn law_from_oid_inverts_descriptor(x: PgTypeId, r: Option<PgTypeId>)
    requires
        oid_lookup(x.descriptor().oid, r),
    ensures
        r == Some(x),
{
    match r {
        Some(t) => lemma_oid_unique(t, x),
        None => assert(x.spec_oid() != x.descriptor().oid),
    }
}

/// The descriptor of `UNSPECIFIED` has OID 0, and the enumeration of the
/// catalog holds neither that identifier nor any descriptor with OID 0.
pub proof fn law_unspecified_not_listed()
    ensures
        PgTypeId::UNSPECIFIED.descriptor().oid == 0,
        forall|i: int|
            0 <= i < listed_type_ids().len() ==> #[trigger] listed_type_ids()[i]
                != PgTypeId::UNSPECIFIED && listed_type_ids()[i].descriptor().oid != 0,
{
    assert forall|i: int| 0 <= i < listed_type_ids().len() implies #[trigger] listed_type_ids()[i]
        != PgTypeId::UNSPECIFIED && listed_type_ids()[i].descriptor().oid != 0 by {
        let t = listed_type_ids()[i];
        if t.descriptor().oid == 0 {
            lemma_oid_unique(t, PgTypeId::UNSPECIFIED);
        }
    }
}

} // verus!
