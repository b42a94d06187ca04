//! SQL statement construction.
//!
//! Identifiers are wrapped in `[ ]` with every `]` doubled, so that
//! no identifier can break out of its brackets.  The statement
//! builders state their output exactly, as a concatenation of fixed
//! text and escaped identifiers.

use vstd::prelude::*;
use vstd::string::*;

verus! {

/// How one character of an identifier appears inside brackets.
pub open spec fn escape_char(c: char) -> Seq<char> {
    if c == ']' {
        seq![']', ']']
    } else {
        seq![c]
    }
}

/// The bracket-escaped form of an identifier.
pub open spec fn escape_seq(s: Seq<char>) -> Seq<char>
    decreases s.len(),
{
    if s.len() == 0 {
        Seq::empty()
    } else {
        escape_char(s[0]) + escape_seq(s.drop_first())
    }
}

/// Reading an escaped identifier back: each `]]` pair collapses to
/// one `]`.
pub open spec fn unescape_seq(s: Seq<char>) -> Seq<char>
    decreases s.len(),
{
    if s.len() == 0 {
        Seq::empty()
    } else if s.len() >= 2 && s[0] == ']' && s[1] == ']' {
        seq![']'] + unescape_seq(s.skip(2))
    } else {
        seq![s[0]] + unescape_seq(s.drop_first())
    }
}

proof fn lemma_escape_snoc(s: Seq<char>, c: char)
    ensures
        escape_seq(s.push(c)) == escape_seq(s) + escape_char(c),
    decreases s.len(),
{
    let t = s.push(c);
    if s.len() == 0 {
        assert(t[0] == c);
        assert(t.drop_first() =~= Seq::<char>::empty());
        assert(escape_seq(Seq::<char>::empty()) == Seq::<char>::empty());
        assert(escape_seq(t) == escape_char(c) + escape_seq(t.drop_first()));
        assert(escape_seq(t) =~= escape_seq(s) + escape_char(c));
    } else {
        assert(t[0] == s[0]);
        assert(t.drop_first() =~= s.drop_first().push(c));
        lemma_escape_snoc(s.drop_first(), c);
        assert(escape_seq(t) == escape_char(s[0]) + escape_seq(s.drop_first().push(c)));
        assert(escape_seq(t) =~= escape_seq(s) + escape_char(c));
    }
}

/// Escaping loses nothing: reading the escaped identifier back gives
/// the original name, for every name, in particular every name that
/// contains `]`.
pub proof fn lemma_escape_roundtrip(s: Seq<char>)
    ensures
        unescape_seq(escape_seq(s)) == s,
    decreases s.len(),
{
    if s.len() == 0 {
    } else {
        let rest = s.drop_first();
        lemma_escape_roundtrip(rest);
        if s[0] == ']' {
            assert(escape_seq(s) =~= seq![']', ']'] + escape_seq(rest));
            assert(escape_seq(s).skip(2) =~= escape_seq(rest));
            assert(unescape_seq(escape_seq(s)) =~= seq![']'] + rest);
            assert(seq![']'] + rest =~= s);
        } else {
            assert(escape_seq(s) =~= seq![s[0]] + escape_seq(rest));
            assert(escape_seq(s)[0] == s[0]);
            if escape_seq(s).len() >= 2 && escape_seq(s)[0] == ']' && escape_seq(s)[1] == ']' {
                assert(false);
            }
            assert(escape_seq(s).drop_first() =~= escape_seq(rest));
            assert(unescape_seq(escape_seq(s)) =~= seq![s[0]] + rest);
            assert(seq![s[0]] + rest =~= s);
        }
    }
}

/// Escape a SQL Server identifier for use inside `[ ]` brackets: a
/// `]` inside the identifier becomes `]]`.
pub fn bracket_escape(s: &str) -> (r: String)
    ensures
        r@ == escape_seq(s@),
{
    let mut out = String::new();
    let len = s.unicode_len();
    let mut i: usize = 0;
    while i < len
        invariant
            i <= len,
            len == s@.len(),
            out@ == escape_seq(s@.subrange(0, i as int)),
        decreases len - i,
    {
        let c = s.get_char(i);
        if c == ']' {
            out.append("]]");
            proof {
                reveal_strlit("]]");
                assert(("]]")@ =~= escape_char(c));
            }
        } else {
            let piece = s.substring_char(i, i + 1);
            out.append(piece);
            proof {
                assert(piece@ =~= escape_char(c));
            }
        }
        proof {
            let pre = s@.subrange(0, i as int);
            assert(s@.subrange(0, i + 1 as int) =~= pre.push(s@[i as int]));
            lemma_escape_snoc(pre, s@[i as int]);
        }
        i += 1;
    }
    proof {
        assert(s@.subrange(0, len as int) =~= s@);
    }
    out
}

/// The full text of the rebuild statement for one index.
pub open spec fn rebuild_sql_spec(
    schema: Seq<char>,
    table: Seq<char>,
    index: Seq<char>,
    online: bool,
) -> Seq<char> {
    "ALTER INDEX ["@ + escape_seq(index) + "] ON ["@ + escape_seq(schema) + "].["@
        + escape_seq(table) + "] REBUILD WITH (ONLINE = "@
        + (if online {
        "ON"@
    } else {
        "OFF"@
    }) + ");"@
}

/// The full text of the reorganize statement for one index.
pub open spec fn reorganize_sql_spec(
    schema: Seq<char>,
    table: Seq<char>,
    index: Seq<char>,
) -> Seq<char> {
    "ALTER INDEX ["@ + escape_seq(index) + "] ON ["@ + escape_seq(schema) + "].["@
        + escape_seq(table) + "] REORGANIZE;"@
}

/// The full text of the statistics refresh for one index.
pub open spec fn update_statistics_sql_spec(
    schema: Seq<char>,
    table: Seq<char>,
    index: Seq<char>,
) -> Seq<char> {
    "UPDATE STATISTICS ["@ + escape_seq(schema) + "].["@ + escape_seq(table) + "] ["@
        + escape_seq(index) + "] WITH FULLSCAN;"@
}

/// Build `ALTER INDEX [index] ON [schema].[table] REBUILD WITH
/// (ONLINE = ON|OFF);` with all three identifiers escaped.
pub fn rebuild_index_sql(schema: &str, table: &str, index: &str, online: bool) -> (r: String)
    ensures
        r@ == rebuild_sql_spec(schema@, table@, index@, online),
{
    let mut out = String::new();
    out.append("ALTER INDEX [");
    out.append(bracket_escape(index).as_str());
    out.append("] ON [");
    out.append(bracket_escape(schema).as_str());
    out.append("].[");
    out.append(bracket_escape(table).as_str());
    out.append("] REBUILD WITH (ONLINE = ");
    if online {
        out.append("ON");
    } else {
        out.append("OFF");
    }
    out.append(");");
    out
}

/// Build `ALTER INDEX [index] ON [schema].[table] REORGANIZE;` with
/// all three identifiers escaped.
pub fn reorganize_index_sql(schema: &str, table: &str, index: &str) -> (r: String)
    ensures
        r@ == reorganize_sql_spec(schema@, table@, index@),
{
    let mut out = String::new();
    out.append("ALTER INDEX [");
    out.append(bracket_escape(index).as_str());
    out.append("] ON [");
    out.append(bracket_escape(schema).as_str());
    out.append("].[");
    out.append(bracket_escape(table).as_str());
    out.append("] REORGANIZE;");
    out
}

/// Build `UPDATE STATISTICS [schema].[table] [index] WITH FULLSCAN;`
/// with all three identifiers escaped.
pub fn update_statistics_sql(schema: &str, table: &str, index: &str) -> (r: String)
    ensures
        r@ == update_statistics_sql_spec(schema@, table@, index@),
{
    let mut out = String::new();
    out.append("UPDATE STATISTICS [");
    out.append(bracket_escape(schema).as_str());
    out.append("].[");
    out.append(bracket_escape(table).as_str());
    out.append("] [");
    out.append(bracket_escape(index).as_str());
    out.append("] WITH FULLSCAN;");
    out
}

/// The read-only probe for user databases.
pub fn user_databases_query() -> &'static str {
    "SELECT name FROM sys.databases WHERE database_id > 4 AND state_desc = 'ONLINE' AND name NOT IN ('master', 'tempdb', 'model', 'msdb') ORDER BY name;"
}

/// The read-only probe for fragmented indexes of the current
/// database, most fragmented first.
pub fn fragmented_indexes_query() -> &'static str {
    "SELECT s.name AS SchemaName, t.name AS TableName, i.name AS IndexName, CAST(ips.avg_fragmentation_in_percent AS float) AS FragmentationPercent, CAST(ips.page_count AS bigint) AS PageCount FROM sys.dm_db_index_physical_stats(DB_ID(), NULL, NULL, NULL, 'LIMITED') AS ips INNER JOIN sys.indexes AS i ON ips.object_id = i.object_id AND ips.index_id = i.index_id INNER JOIN sys.tables AS t ON i.object_id = t.object_id INNER JOIN sys.schemas AS s ON t.schema_id = s.schema_id WHERE ips.index_id > 0 AND ips.page_count > 100 AND t.is_ms_shipped = 0 AND i.name IS NOT NULL ORDER BY ips.avg_fragmentation_in_percent DESC;"
}

/// The plan-cache flush issued after work that changed something.
pub fn free_proc_cache_statement() -> &'static str {
    "DBCC FREEPROCCACHE;"
}

} // verus!
