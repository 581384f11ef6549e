//! Facts about the table of states: every name and code of the table reads back
//! as its own entry's code, and a value's code is that of any entry that names it.
use vstd::prelude::*;
use crate::config::{
    is_tax_free_code, scope_includes, state_code_of, state_entry_matches, state_index_from,
    Scope, STATES, TAX_FREE_STATES,
};
use crate::text::{ascii_lower, eq_ignore_ascii_case, is_ws, trim};

verus! {

/// The shape of entry `i`: a name of four characters or more, without surrounding
/// whitespace, and a code of two upper-case ASCII letters.
pub open spec fn entry_shape(i: int) -> bool {
    let n = STATES@[i].0@;
    let c = STATES@[i].1@;
    &&& n.len() >= 4 && !is_ws(n[0]) && !is_ws(n.last())
    &&& c.len() == 2 && 'A' <= c[0] <= 'Z' && 'A' <= c[1] <= 'Z'
}

/// Every entry of the table has that shape.
pub proof fn lemma_table_shape()
    ensures
        forall|i: int| 0 <= i < 57 ==> #[trigger] entry_shape(i),
{
    reveal_strlit("Alabama");
    reveal_strlit("AL");
    reveal_strlit("Alaska");
    reveal_strlit("AK");
    reveal_strlit("Arizona");
    reveal_strlit("AZ");
    reveal_strlit("Arkansas");
    reveal_strlit("AR");
    reveal_strlit("California");
    reveal_strlit("CA");
    reveal_strlit("Colorado");
    reveal_strlit("CO");
    reveal_strlit("Connecticut");
    reveal_strlit("CT");
    reveal_strlit("Delaware");
    reveal_strlit("DE");
    reveal_strlit("District of Columbia");
    reveal_strlit("DC");
    reveal_strlit("Florida");
    reveal_strlit("FL");
    reveal_strlit("Georgia");
    reveal_strlit("GA");
    reveal_strlit("Hawaii");
    reveal_strlit("HI");
    reveal_strlit("Idaho");
    reveal_strlit("ID");
    reveal_strlit("Illinois");
    reveal_strlit("IL");
    reveal_strlit("Indiana");
    reveal_strlit("IN");
    reveal_strlit("Iowa");
    reveal_strlit("IA");
    reveal_strlit("Kansas");
    reveal_strlit("KS");
    reveal_strlit("Kentucky");
    reveal_strlit("KY");
    reveal_strlit("Louisiana");
    reveal_strlit("LA");
    reveal_strlit("Maine");
    reveal_strlit("ME");
    reveal_strlit("Maryland");
    reveal_strlit("MD");
    reveal_strlit("Massachusetts");
    reveal_strlit("MA");
    reveal_strlit("Michigan");
    reveal_strlit("MI");
    reveal_strlit("Minnesota");
    reveal_strlit("MN");
    reveal_strlit("Mississippi");
    reveal_strlit("MS");
    reveal_strlit("Missouri");
    reveal_strlit("MO");
    reveal_strlit("Montana");
    reveal_strlit("MT");
    reveal_strlit("Nebraska");
    reveal_strlit("NE");
    reveal_strlit("Nevada");
    reveal_strlit("NV");
    reveal_strlit("New Hampshire");
    reveal_strlit("NH");
    reveal_strlit("New Jersey");
    reveal_strlit("NJ");
    reveal_strlit("New Mexico");
    reveal_strlit("NM");
    reveal_strlit("New York");
    reveal_strlit("NY");
    reveal_strlit("North Carolina");
    reveal_strlit("NC");
    reveal_strlit("North Dakota");
    reveal_strlit("ND");
    reveal_strlit("Ohio");
    reveal_strlit("OH");
    reveal_strlit("Oklahoma");
    reveal_strlit("OK");
    reveal_strlit("Oregon");
    reveal_strlit("OR");
    reveal_strlit("Pennsylvania");
    reveal_strlit("PA");
    reveal_strlit("Rhode Island");
    reveal_strlit("RI");
    reveal_strlit("South Carolina");
    reveal_strlit("SC");
    reveal_strlit("South Dakota");
    reveal_strlit("SD");
    reveal_strlit("Tennessee");
    reveal_strlit("TN");
    reveal_strlit("Texas");
    reveal_strlit("TX");
    reveal_strlit("Utah");
    reveal_strlit("UT");
    reveal_strlit("Vermont");
    reveal_strlit("VT");
    reveal_strlit("Virginia");
    reveal_strlit("VA");
    reveal_strlit("Washington");
    reveal_strlit("WA");
    reveal_strlit("West Virginia");
    reveal_strlit("WV");
    reveal_strlit("Wisconsin");
    reveal_strlit("WI");
    reveal_strlit("Wyoming");
    reveal_strlit("WY");
    reveal_strlit("American Samoa");
    reveal_strlit("AS");
    reveal_strlit("Guam");
    reveal_strlit("GU");
    reveal_strlit("Northern Mariana Islands");
    reveal_strlit("MP");
    reveal_strlit("Puerto Rico");
    reveal_strlit("PR");
    reveal_strlit("US Virgin Islands");
    reveal_strlit("VI");
    reveal_strlit("US Minor Outlying Islands");
    reveal_strlit("UM");
    assert(entry_shape(0));
    assert(entry_shape(1));
    assert(entry_shape(2));
    assert(entry_shape(3));
    assert(entry_shape(4));
    assert(entry_shape(5));
    assert(entry_shape(6));
    assert(entry_shape(7));
    assert(entry_shape(8));
    assert(entry_shape(9));
    assert(entry_shape(10));
    assert(entry_shape(11));
    assert(entry_shape(12));
    assert(entry_shape(13));
    assert(entry_shape(14));
    assert(entry_shape(15));
    assert(entry_shape(16));
    assert(entry_shape(17));
    assert(entry_shape(18));
    assert(entry_shape(19));
    assert(entry_shape(20));
    assert(entry_shape(21));
    assert(entry_shape(22));
    assert(entry_shape(23));
    assert(entry_shape(24));
    assert(entry_shape(25));
    assert(entry_shape(26));
    assert(entry_shape(27));
    assert(entry_shape(28));
    assert(entry_shape(29));
    assert(entry_shape(30));
    assert(entry_shape(31));
    assert(entry_shape(32));
    assert(entry_shape(33));
    assert(entry_shape(34));
    assert(entry_shape(35));
    assert(entry_shape(36));
    assert(entry_shape(37));
    assert(entry_shape(38));
    assert(entry_shape(39));
    assert(entry_shape(40));
    assert(entry_shape(41));
    assert(entry_shape(42));
    assert(entry_shape(43));
    assert(entry_shape(44));
    assert(entry_shape(45));
    assert(entry_shape(46));
    assert(entry_shape(47));
    assert(entry_shape(48));
    assert(entry_shape(49));
    assert(entry_shape(50));
    assert(entry_shape(51));
    assert(entry_shape(52));
    assert(entry_shape(53));
    assert(entry_shape(54));
    assert(entry_shape(55));
    assert(entry_shape(56));
    assert forall|i: int| 0 <= i < 57 implies #[trigger] entry_shape(i) by {
        assert(i == 0 || i == 1 || i == 2 || i == 3 || i == 4 || i == 5 || i == 6 || i == 7 || i == 8 || i == 9 || i == 10 || i == 11 || i == 12 || i == 13 || i == 14 || i == 15 || i == 16 || i == 17 || i == 18 || i == 19 || i == 20 || i == 21 || i == 22 || i == 23 || i == 24 || i == 25 || i == 26 || i == 27 || i == 28 || i == 29 || i == 30 || i == 31 || i == 32 || i == 33 || i == 34 || i == 35 || i == 36 || i == 37 || i == 38 || i == 39 || i == 40 || i == 41 || i == 42 || i == 43 || i == 44 || i == 45 || i == 46 || i == 47 || i == 48 || i == 49 || i == 50 || i == 51 || i == 52 || i == 53 || i == 54 || i == 55 || i == 56);
    }
}

/// A text without surrounding whitespace is its own trimmed form.
proof fn lemma_trim_unchanged(s: Seq<char>)
    requires
        s.len() > 0,
        !is_ws(s[0]),
        !is_ws(s.last()),
    ensures
        trim(s) == s,
{
}

/// An entry that names the value, with no entry before it that does, is the one found.
proof fn lemma_first_match(v: Seq<char>, i: int)
    requires
        0 <= i < 57,
        state_entry_matches(i, v),
        forall|m: int| 0 <= m < i ==> !#[trigger] state_entry_matches(m, v),
    ensures
        state_index_from(v, 0) == Some(i),
{
    lemma_first_match_from(v, i, 0);
}

proof fn lemma_first_match_from(v: Seq<char>, i: int, k: int)
    requires
        0 <= k <= i < 57,
        state_entry_matches(i, v),
        forall|m: int| 0 <= m < i ==> !#[trigger] state_entry_matches(m, v),
    ensures
        state_index_from(v, k) == Some(i),
    decreases i - k,
{
    if k < i {
        assert(!state_entry_matches(k, v));
        lemma_first_match_from(v, i, k + 1);
    }
}

/// The names of entries 0 to 7 are first matched by their own entries.
#[verifier::spinoff_prover]
proof fn lemma_names_resolve_0_7()
    ensures
        forall|i: int| 0 <= i < 8 ==> #[trigger] state_index_from(STATES@[i].0@, 0) == Some(i),
{
    reveal_strlit("Alabama");
    reveal_strlit("AL");
    reveal_strlit("Alaska");
    reveal_strlit("AK");
    reveal_strlit("Arizona");
    reveal_strlit("AZ");
    reveal_strlit("Arkansas");
    reveal_strlit("AR");
    reveal_strlit("California");
    reveal_strlit("CA");
    reveal_strlit("Colorado");
    reveal_strlit("CO");
    reveal_strlit("Connecticut");
    reveal_strlit("CT");
    reveal_strlit("Delaware");
    reveal_strlit("DE");
    assert(state_index_from(STATES@[0].0@, 0) == Some(0int)) by {
        let v = STATES@[0].0@;
        assert(trim(v) == v);
        lemma_first_match(v, 0);
    }
    assert(state_index_from(STATES@[1].0@, 0) == Some(1int)) by {
        let v = STATES@[1].0@;
        assert(trim(v) == v);
        assert forall|m: int| 0 <= m < 1 implies !#[trigger] state_entry_matches(m, v) by {
            assert(m == 0);
        }
        lemma_first_match(v, 1);
    }
    assert(state_index_from(STATES@[2].0@, 0) == Some(2int)) by {
        let v = STATES@[2].0@;
        assert(trim(v) == v);
        assert(ascii_lower(STATES@[0].0@[1]) != ascii_lower(v[1]));
        assert forall|m: int| 0 <= m < 2 implies !#[trigger] state_entry_matches(m, v) by {
            assert(m == 0 || m == 1);
        }
        lemma_first_match(v, 2);
    }
    assert(state_index_from(STATES@[3].0@, 0) == Some(3int)) by {
        let v = STATES@[3].0@;
        assert(trim(v) == v);
        assert forall|m: int| 0 <= m < 3 implies !#[trigger] state_entry_matches(m, v) by {
            assert(m == 0 || m == 1 || m == 2);
        }
        lemma_first_match(v, 3);
    }
    assert(state_index_from(STATES@[4].0@, 0) == Some(4int)) by {
        let v = STATES@[4].0@;
        assert(trim(v) == v);
        assert forall|m: int| 0 <= m < 4 implies !#[trigger] state_entry_matches(m, v) by {
            assert(m == 0 || m == 1 || m == 2 || m == 3);
        }
        lemma_first_match(v, 4);
    }
    assert(state_index_from(STATES@[5].0@, 0) == Some(5int)) by {
        let v = STATES@[5].0@;
        assert(trim(v) == v);
        assert(ascii_lower(STATES@[3].0@[0]) != ascii_lower(v[0]));
        assert forall|m: int| 0 <= m < 5 implies !#[trigger] state_entry_matches(m, v) by {
            assert(m == 0 || m == 1 || m == 2 || m == 3 || m == 4);
        }
        lemma_first_match(v, 5);
    }
    assert(state_index_from(STATES@[6].0@, 0) == Some(6int)) by {
        let v = STATES@[6].0@;
        assert(trim(v) == v);
        assert forall|m: int| 0 <= m < 6 implies !#[trigger] state_entry_matches(m, v) by {
            assert(m == 0 || m == 1 || m == 2 || m == 3 || m == 4 || m == 5);
        }
        lemma_first_match(v, 6);
    }
    assert(state_index_from(STATES@[7].0@, 0) == Some(7int)) by {
        let v = STATES@[7].0@;
        assert(trim(v) == v);
        assert(ascii_lower(STATES@[3].0@[0]) != ascii_lower(v[0]));
        assert(ascii_lower(STATES@[5].0@[0]) != ascii_lower(v[0]));
        assert forall|m: int| 0 <= m < 7 implies !#[trigger] state_entry_matches(m, v) by {
            assert(m == 0 || m == 1 || m == 2 || m == 3 || m == 4 || m == 5 || m == 6);
        }
        lemma_first_match(v, 7);
    }
    assert forall|i: int| 0 <= i < 8 implies #[trigger] state_index_from(STATES@[i].0@, 0) == Some(i) by {
        assert(i == 0 || i == 1 || i == 2 || i == 3 || i == 4 || i == 5 || i == 6 || i == 7);
    }
}

/// The names of entries 8 to 15 are first matched by their own entries.
#[verifier::spinoff_prover]
proof fn lemma_names_resolve_8_15()
    ensures
        forall|i: int| 8 <= i < 16 ==> #[trigger] state_index_from(STATES@[i].0@, 0) == Some(i),
{
    reveal_strlit("Alabama");
    reveal_strlit("AL");
    reveal_strlit("Alaska");
    reveal_strlit("AK");
    reveal_strlit("Arizona");
    reveal_strlit("AZ");
    reveal_strlit("Arkansas");
    reveal_strlit("AR");
    reveal_strlit("California");
    reveal_strlit("CA");
    reveal_strlit("Colorado");
    reveal_strlit("CO");
    reveal_strlit("Connecticut");
    reveal_strlit("CT");
    reveal_strlit("Delaware");
    reveal_strlit("DE");
    reveal_strlit("District of Columbia");
    reveal_strlit("DC");
    reveal_strlit("Florida");
    reveal_strlit("FL");
    reveal_strlit("Georgia");
    reveal_strlit("GA");
    reveal_strlit("Hawaii");
    reveal_strlit("HI");
    reveal_strlit("Idaho");
    reveal_strlit("ID");
    reveal_strlit("Illinois");
    reveal_strlit("IL");
    reveal_strlit("Indiana");
    reveal_strlit("IN");
    reveal_strlit("Iowa");
    reveal_strlit("IA");
    assert(state_index_from(STATES@[8].0@, 0) == Some(8int)) by {
        let v = STATES@[8].0@;
        assert(trim(v) == v);
        assert forall|m: int| 0 <= m < 8 implies !#[trigger] state_entry_matches(m, v) by {
            assert(m == 0 || m == 1 || m == 2 || m == 3 || m == 4 || m == 5 || m == 6 || m == 7);
        }
        lemma_first_match(v, 8);
    }
    assert(state_index_from(STATES@[9].0@, 0) == Some(9int)) by {
        let v = STATES@[9].0@;
        assert(trim(v) == v);
        assert(ascii_lower(STATES@[0].0@[0]) != ascii_lower(v[0]));
        assert(ascii_lower(STATES@[2].0@[0]) != ascii_lower(v[0]));
        assert forall|m: int| 0 <= m < 9 implies !#[trigger] state_entry_matches(m, v) by {
            assert(m == 0 || m == 1 || m == 2 || m == 3 || m == 4 || m == 5 || m == 6 || m == 7 || m == 8);
        }
        lemma_first_match(v, 9);
    }
    assert(state_index_from(STATES@[10].0@, 0) == Some(10int)) by {
        let v = STATES@[10].0@;
        assert(trim(v) == v);
        assert(ascii_lower(STATES@[0].0@[0]) != ascii_lower(v[0]));
        assert(ascii_lower(STATES@[2].0@[0]) != ascii_lower(v[0]));
        assert(ascii_lower(STATES@[9].0@[0]) != ascii_lower(v[0]));
        assert forall|m: int| 0 <= m < 10 implies !#[trigger] state_entry_matches(m, v) by {
            assert(m == 0 || m == 1 || m == 2 || m == 3 || m == 4 || m == 5 || m == 6 || m == 7 || m == 8 || m == 9);
        }
        lemma_first_match(v, 10);
    }
    assert(state_index_from(STATES@[11].0@, 0) == Some(11int)) by {
        let v = STATES@[11].0@;
        assert(trim(v) == v);
        assert(ascii_lower(STATES@[1].0@[0]) != ascii_lower(v[0]));
        assert forall|m: int| 0 <= m < 11 implies !#[trigger] state_entry_matches(m, v) by {
            assert(m == 0 || m == 1 || m == 2 || m == 3 || m == 4 || m == 5 || m == 6 || m == 7 || m == 8 || m == 9 || m == 10);
        }
        lemma_first_match(v, 11);
    }
    assert(state_index_from(STATES@[12].0@, 0) == Some(12int)) by {
        let v = STATES@[12].0@;
        assert(trim(v) == v);
        assert forall|m: int| 0 <= m < 12 implies !#[trigger] state_entry_matches(m, v) by {
            assert(m == 0 || m == 1 || m == 2 || m == 3 || m == 4 || m == 5 || m == 6 || m == 7 || m == 8 || m == 9 || m == 10 || m == 11);
        }
        lemma_first_match(v, 12);
    }
    assert(state_index_from(STATES@[13].0@, 0) == Some(13int)) by {
        let v = STATES@[13].0@;
        assert(trim(v) == v);
        assert(ascii_lower(STATES@[3].0@[0]) != ascii_lower(v[0]));
        assert(ascii_lower(STATES@[5].0@[0]) != ascii_lower(v[0]));
        assert(ascii_lower(STATES@[7].0@[0]) != ascii_lower(v[0]));
        assert forall|m: int| 0 <= m < 13 implies !#[trigger] state_entry_matches(m, v) by {
            assert(m == 0 || m == 1 || m == 2 || m == 3 || m == 4 || m == 5 || m == 6 || m == 7 || m == 8 || m == 9 || m == 10 || m == 11 || m == 12);
        }
        lemma_first_match(v, 13);
    }
    assert(state_index_from(STATES@[14].0@, 0) == Some(14int)) by {
        let v = STATES@[14].0@;
        assert(trim(v) == v);
        assert(ascii_lower(STATES@[0].0@[0]) != ascii_lower(v[0]));
        assert(ascii_lower(STATES@[2].0@[0]) != ascii_lower(v[0]));
        assert(ascii_lower(STATES@[9].0@[0]) != ascii_lower(v[0]));
        assert(ascii_lower(STATES@[10].0@[0]) != ascii_lower(v[0]));
        assert forall|m: int| 0 <= m < 14 implies !#[trigger] state_entry_matches(m, v) by {
            assert(m == 0 || m == 1 || m == 2 || m == 3 || m == 4 || m == 5 || m == 6 || m == 7 || m == 8 || m == 9 || m == 10 || m == 11 || m == 12 || m == 13);
        }
        lemma_first_match(v, 14);
    }
    assert(state_index_from(STATES@[15].0@, 0) == Some(15int)) by {
        let v = STATES@[15].0@;
        assert(trim(v) == v);
        assert forall|m: int| 0 <= m < 15 implies !#[trigger] state_entry_matches(m, v) by {
            assert(m == 0 || m == 1 || m == 2 || m == 3 || m == 4 || m == 5 || m == 6 || m == 7 || m == 8 || m == 9 || m == 10 || m == 11 || m == 12 || m == 13 || m == 14);
        }
        lemma_first_match(v, 15);
    }
    assert forall|i: int| 8 <= i < 16 implies #[trigger] state_index_from(STATES@[i].0@, 0) == Some(i) by {
        assert(i == 8 || i == 9 || i == 10 || i == 11 || i == 12 || i == 13 || i == 14 || i == 15);
    }
}

/// The names of entries 16 to 23 are first matched by their own entries.
#[verifier::spinoff_prover]
proof fn lemma_names_resolve_16_23()
    ensures
        forall|i: int| 16 <= i < 24 ==> #[trigger] state_index_from(STATES@[i].0@, 0) == Some(i),
{
    reveal_strlit("Alabama");
    reveal_strlit("AL");
    reveal_strlit("Alaska");
    reveal_strlit("AK");
    reveal_strlit("Arizona");
    reveal_strlit("AZ");
    reveal_strlit("Arkansas");
    reveal_strlit("AR");
    reveal_strlit("California");
    reveal_strlit("CA");
    reveal_strlit("Colorado");
    reveal_strlit("CO");
    reveal_strlit("Connecticut");
    reveal_strlit("CT");
    reveal_strlit("Delaware");
    reveal_strlit("DE");
    reveal_strlit("District of Columbia");
    reveal_strlit("DC");
    reveal_strlit("Florida");
    reveal_strlit("FL");
    reveal_strlit("Georgia");
    reveal_strlit("GA");
    reveal_strlit("Hawaii");
    reveal_strlit("HI");
    reveal_strlit("Idaho");
    reveal_strlit("ID");
    reveal_strlit("Illinois");
    reveal_strlit("IL");
    reveal_strlit("Indiana");
    reveal_strlit("IN");
    reveal_strlit("Iowa");
    reveal_strlit("IA");
    reveal_strlit("Kansas");
    reveal_strlit("KS");
    reveal_strlit("Kentucky");
    reveal_strlit("KY");
    reveal_strlit("Louisiana");
    reveal_strlit("LA");
    reveal_strlit("Maine");
    reveal_strlit("ME");
    reveal_strlit("Maryland");
    reveal_strlit("MD");
    reveal_strlit("Massachusetts");
    reveal_strlit("MA");
    reveal_strlit("Michigan");
    reveal_strlit("MI");
    reveal_strlit("Minnesota");
    reveal_strlit("MN");
    assert(state_index_from(STATES@[16].0@, 0) == Some(16int)) by {
        let v = STATES@[16].0@;
        assert(trim(v) == v);
        assert(ascii_lower(STATES@[1].0@[0]) != ascii_lower(v[0]));
        assert(ascii_lower(STATES@[11].0@[0]) != ascii_lower(v[0]));
        assert forall|m: int| 0 <= m < 16 implies !#[trigger] state_entry_matches(m, v) by {
            assert(m == 0 || m == 1 || m == 2 || m == 3 || m == 4 || m == 5 || m == 6 || m == 7 || m == 8 || m == 9 || m == 10 || m == 11 || m == 12 || m == 13 || m == 14 || m == 15);
        }
        lemma_first_match(v, 16);
    }
    assert(state_index_from(STATES@[17].0@, 0) == Some(17int)) by {
        let v = STATES@[17].0@;
        assert(trim(v) == v);
        assert(ascii_lower(STATES@[3].0@[0]) != ascii_lower(v[0]));
        assert(ascii_lower(STATES@[5].0@[0]) != ascii_lower(v[0]));
        assert(ascii_lower(STATES@[7].0@[0]) != ascii_lower(v[0]));
        assert(ascii_lower(STATES@[13].0@[0]) != ascii_lower(v[0]));
        assert forall|m: int| 0 <= m < 17 implies !#[trigger] state_entry_matches(m, v) by {
            assert(m == 0 || m == 1 || m == 2 || m == 3 || m == 4 || m == 5 || m == 6 || m == 7 || m == 8 || m == 9 || m == 10 || m == 11 || m == 12 || m == 13 || m == 14 || m == 15 || m == 16);
        }
        lemma_first_match(v, 17);
    }
    assert(state_index_from(STATES@[18].0@, 0) == Some(18int)) by {
        let v = STATES@[18].0@;
        assert(trim(v) == v);
        assert forall|m: int| 0 <= m < 18 implies !#[trigger] state_entry_matches(m, v) by {
            assert(m == 0 || m == 1 || m == 2 || m == 3 || m == 4 || m == 5 || m == 6 || m == 7 || m == 8 || m == 9 || m == 10 || m == 11 || m == 12 || m == 13 || m == 14 || m == 15 || m == 16 || m == 17);
        }
        lemma_first_match(v, 18);
    }
    assert(state_index_from(STATES@[19].0@, 0) == Some(19int)) by {
        let v = STATES@[19].0@;
        assert(trim(v) == v);
        assert(ascii_lower(STATES@[12].0@[0]) != ascii_lower(v[0]));
        assert forall|m: int| 0 <= m < 19 implies !#[trigger] state_entry_matches(m, v) by {
            assert(m == 0 || m == 1 || m == 2 || m == 3 || m == 4 || m == 5 || m == 6 || m == 7 || m == 8 || m == 9 || m == 10 || m == 11 || m == 12 || m == 13 || m == 14 || m == 15 || m == 16 || m == 17 || m == 18);
        }
        lemma_first_match(v, 19);
    }
    assert(state_index_from(STATES@[20].0@, 0) == Some(20int)) by {
        let v = STATES@[20].0@;
        assert(trim(v) == v);
        assert(ascii_lower(STATES@[3].0@[0]) != ascii_lower(v[0]));
        assert(ascii_lower(STATES@[5].0@[0]) != ascii_lower(v[0]));
        assert(ascii_lower(STATES@[7].0@[0]) != ascii_lower(v[0]));
        assert(ascii_lower(STATES@[13].0@[0]) != ascii_lower(v[0]));
        assert(ascii_lower(STATES@[17].0@[0]) != ascii_lower(v[0]));
        assert forall|m: int| 0 <= m < 20 implies !#[trigger] state_entry_matches(m, v) by {
            assert(m == 0 || m == 1 || m == 2 || m == 3 || m == 4 || m == 5 || m == 6 || m == 7 || m == 8 || m == 9 || m == 10 || m == 11 || m == 12 || m == 13 || m == 14 || m == 15 || m == 16 || m == 17 || m == 18 || m == 19);
        }
        lemma_first_match(v, 20);
    }
    assert(state_index_from(STATES@[21].0@, 0) == Some(21int)) by {
        let v = STATES@[21].0@;
        assert(trim(v) == v);
        assert forall|m: int| 0 <= m < 21 implies !#[trigger] state_entry_matches(m, v) by {
            assert(m == 0 || m == 1 || m == 2 || m == 3 || m == 4 || m == 5 || m == 6 || m == 7 || m == 8 || m == 9 || m == 10 || m == 11 || m == 12 || m == 13 || m == 14 || m == 15 || m == 16 || m == 17 || m == 18 || m == 19 || m == 20);
        }
        lemma_first_match(v, 21);
    }
    assert(state_index_from(STATES@[22].0@, 0) == Some(22int)) by {
        let v = STATES@[22].0@;
        assert(trim(v) == v);
        assert(ascii_lower(STATES@[3].0@[0]) != ascii_lower(v[0]));
        assert(ascii_lower(STATES@[5].0@[0]) != ascii_lower(v[0]));
        assert(ascii_lower(STATES@[7].0@[0]) != ascii_lower(v[0]));
        assert(ascii_lower(STATES@[13].0@[0]) != ascii_lower(v[0]));
        assert(ascii_lower(STATES@[17].0@[0]) != ascii_lower(v[0]));
        assert(ascii_lower(STATES@[20].0@[1]) != ascii_lower(v[1]));
        assert forall|m: int| 0 <= m < 22 implies !#[trigger] state_entry_matches(m, v) by {
            assert(m == 0 || m == 1 || m == 2 || m == 3 || m == 4 || m == 5 || m == 6 || m == 7 || m == 8 || m == 9 || m == 10 || m == 11 || m == 12 || m == 13 || m == 14 || m == 15 || m == 16 || m == 17 || m == 18 || m == 19 || m == 20 || m == 21);
        }
        lemma_first_match(v, 22);
    }
    assert(state_index_from(STATES@[23].0@, 0) == Some(23int)) by {
        let v = STATES@[23].0@;
        assert(trim(v) == v);
        assert(ascii_lower(STATES@[18].0@[0]) != ascii_lower(v[0]));
        assert forall|m: int| 0 <= m < 23 implies !#[trigger] state_entry_matches(m, v) by {
            assert(m == 0 || m == 1 || m == 2 || m == 3 || m == 4 || m == 5 || m == 6 || m == 7 || m == 8 || m == 9 || m == 10 || m == 11 || m == 12 || m == 13 || m == 14 || m == 15 || m == 16 || m == 17 || m == 18 || m == 19 || m == 20 || m == 21 || m == 22);
        }
        lemma_first_match(v, 23);
    }
    assert forall|i: int| 16 <= i < 24 implies #[trigger] state_index_from(STATES@[i].0@, 0) == Some(i) by {
        assert(i == 16 || i == 17 || i == 18 || i == 19 || i == 20 || i == 21 || i == 22 || i == 23);
    }
}

/// The names of entries 24 to 31 are first matched by their own entries.
#[verifier::spinoff_prover]
proof fn lemma_names_resolve_24_31()
    ensures
        forall|i: int| 24 <= i < 32 ==> #[trigger] state_index_from(STATES@[i].0@, 0) == Some(i),
{
    reveal_strlit("Alabama");
    reveal_strlit("AL");
    reveal_strlit("Alaska");
    reveal_strlit("AK");
    reveal_strlit("Arizona");
    reveal_strlit("AZ");
    reveal_strlit("Arkansas");
    reveal_strlit("AR");
    reveal_strlit("California");
    reveal_strlit("CA");
    reveal_strlit("Colorado");
    reveal_strlit("CO");
    reveal_strlit("Connecticut");
    reveal_strlit("CT");
    reveal_strlit("Delaware");
    reveal_strlit("DE");
    reveal_strlit("District of Columbia");
    reveal_strlit("DC");
    reveal_strlit("Florida");
    reveal_strlit("FL");
    reveal_strlit("Georgia");
    reveal_strlit("GA");
    reveal_strlit("Hawaii");
    reveal_strlit("HI");
    reveal_strlit("Idaho");
    reveal_strlit("ID");
    reveal_strlit("Illinois");
    reveal_strlit("IL");
    reveal_strlit("Indiana");
    reveal_strlit("IN");
    reveal_strlit("Iowa");
    reveal_strlit("IA");
    reveal_strlit("Kansas");
    reveal_strlit("KS");
    reveal_strlit("Kentucky");
    reveal_strlit("KY");
    reveal_strlit("Louisiana");
    reveal_strlit("LA");
    reveal_strlit("Maine");
    reveal_strlit("ME");
    reveal_strlit("Maryland");
    reveal_strlit("MD");
    reveal_strlit("Massachusetts");
    reveal_strlit("MA");
    reveal_strlit("Michigan");
    reveal_strlit("MI");
    reveal_strlit("Minnesota");
    reveal_strlit("MN");
    reveal_strlit("Mississippi");
    reveal_strlit("MS");
    reveal_strlit("Missouri");
    reveal_strlit("MO");
    reveal_strlit("Montana");
    reveal_strlit("MT");
    reveal_strlit("Nebraska");
    reveal_strlit("NE");
    reveal_strlit("Nevada");
    reveal_strlit("NV");
    reveal_strlit("New Hampshire");
    reveal_strlit("NH");
    reveal_strlit("New Jersey");
    reveal_strlit("NJ");
    reveal_strlit("New Mexico");
    reveal_strlit("NM");
    assert(state_index_from(STATES@[24].0@, 0) == Some(24int)) by {
        let v = STATES@[24].0@;
        assert(trim(v) == v);
        assert(ascii_lower(STATES@[6].0@[0]) != ascii_lower(v[0]));
        assert forall|m: int| 0 <= m < 24 implies !#[trigger] state_entry_matches(m, v) by {
            assert(m == 0 || m == 1 || m == 2 || m == 3 || m == 4 || m == 5 || m == 6 || m == 7 || m == 8 || m == 9 || m == 10 || m == 11 || m == 12 || m == 13 || m == 14 || m == 15 || m == 16 || m == 17 || m == 18 || m == 19 || m == 20 || m == 21 || m == 22 || m == 23);
        }
        lemma_first_match(v, 24);
    }
    assert(state_index_from(STATES@[25].0@, 0) == Some(25int)) by {
        let v = STATES@[25].0@;
        assert(trim(v) == v);
        assert(ascii_lower(STATES@[3].0@[0]) != ascii_lower(v[0]));
        assert(ascii_lower(STATES@[5].0@[0]) != ascii_lower(v[0]));
        assert(ascii_lower(STATES@[7].0@[0]) != ascii_lower(v[0]));
        assert(ascii_lower(STATES@[13].0@[0]) != ascii_lower(v[0]));
        assert(ascii_lower(STATES@[17].0@[0]) != ascii_lower(v[0]));
        assert(ascii_lower(STATES@[20].0@[1]) != ascii_lower(v[1]));
        assert(ascii_lower(STATES@[22].0@[2]) != ascii_lower(v[2]));
        assert forall|m: int| 0 <= m < 25 implies !#[trigger] state_entry_matches(m, v) by {
            assert(m == 0 || m == 1 || m == 2 || m == 3 || m == 4 || m == 5 || m == 6 || m == 7 || m == 8 || m == 9 || m == 10 || m == 11 || m == 12 || m == 13 || m == 14 || m == 15 || m == 16 || m == 17 || m == 18 || m == 19 || m == 20 || m == 21 || m == 22 || m == 23 || m == 24);
        }
        lemma_first_match(v, 25);
    }
    assert(state_index_from(STATES@[26].0@, 0) == Some(26int)) by {
        let v = STATES@[26].0@;
        assert(trim(v) == v);
        assert(ascii_lower(STATES@[0].0@[0]) != ascii_lower(v[0]));
        assert(ascii_lower(STATES@[2].0@[0]) != ascii_lower(v[0]));
        assert(ascii_lower(STATES@[9].0@[0]) != ascii_lower(v[0]));
        assert(ascii_lower(STATES@[10].0@[0]) != ascii_lower(v[0]));
        assert(ascii_lower(STATES@[14].0@[0]) != ascii_lower(v[0]));
        assert forall|m: int| 0 <= m < 26 implies !#[trigger] state_entry_matches(m, v) by {
            assert(m == 0 || m == 1 || m == 2 || m == 3 || m == 4 || m == 5 || m == 6 || m == 7 || m == 8 || m == 9 || m == 10 || m == 11 || m == 12 || m == 13 || m == 14 || m == 15 || m == 16 || m == 17 || m == 18 || m == 19 || m == 20 || m == 21 || m == 22 || m == 23 || m == 24 || m == 25);
        }
        lemma_first_match(v, 26);
    }
    assert(state_index_from(STATES@[27].0@, 0) == Some(27int)) by {
        let v = STATES@[27].0@;
        assert(trim(v) == v);
        assert(ascii_lower(STATES@[3].0@[0]) != ascii_lower(v[0]));
        assert(ascii_lower(STATES@[5].0@[0]) != ascii_lower(v[0]));
        assert(ascii_lower(STATES@[7].0@[0]) != ascii_lower(v[0]));
        assert(ascii_lower(STATES@[13].0@[0]) != ascii_lower(v[0]));
        assert(ascii_lower(STATES@[17].0@[0]) != ascii_lower(v[0]));
        assert(ascii_lower(STATES@[20].0@[0]) != ascii_lower(v[0]));
        assert(ascii_lower(STATES@[22].0@[0]) != ascii_lower(v[0]));
        assert(ascii_lower(STATES@[25].0@[0]) != ascii_lower(v[0]));
        assert forall|m: int| 0 <= m < 27 implies !#[trigger] state_entry_matches(m, v) by {
            assert(m == 0 || m == 1 || m == 2 || m == 3 || m == 4 || m == 5 || m == 6 || m == 7 || m == 8 || m == 9 || m == 10 || m == 11 || m == 12 || m == 13 || m == 14 || m == 15 || m == 16 || m == 17 || m == 18 || m == 19 || m == 20 || m == 21 || m == 22 || m == 23 || m == 24 || m == 25 || m == 26);
        }
        lemma_first_match(v, 27);
    }
    assert(state_index_from(STATES@[28].0@, 0) == Some(28int)) by {
        let v = STATES@[28].0@;
        assert(trim(v) == v);
        assert(ascii_lower(STATES@[1].0@[0]) != ascii_lower(v[0]));
        assert(ascii_lower(STATES@[11].0@[0]) != ascii_lower(v[0]));
        assert(ascii_lower(STATES@[16].0@[0]) != ascii_lower(v[0]));
        assert forall|m: int| 0 <= m < 28 implies !#[trigger] state_entry_matches(m, v) by {
            assert(m == 0 || m == 1 || m == 2 || m == 3 || m == 4 || m == 5 || m == 6 || m == 7 || m == 8 || m == 9 || m == 10 || m == 11 || m == 12 || m == 13 || m == 14 || m == 15 || m == 16 || m == 17 || m == 18 || m == 19 || m == 20 || m == 21 || m == 22 || m == 23 || m == 24 || m == 25 || m == 26 || m == 27);
        }
        lemma_first_match(v, 28);
    }
    assert(state_index_from(STATES@[29].0@, 0) == Some(29int)) by {
        let v = STATES@[29].0@;
        assert(trim(v) == v);
        assert(ascii_lower(STATES@[21].0@[0]) != ascii_lower(v[0]));
        assert forall|m: int| 0 <= m < 29 implies !#[trigger] state_entry_matches(m, v) by {
            assert(m == 0 || m == 1 || m == 2 || m == 3 || m == 4 || m == 5 || m == 6 || m == 7 || m == 8 || m == 9 || m == 10 || m == 11 || m == 12 || m == 13 || m == 14 || m == 15 || m == 16 || m == 17 || m == 18 || m == 19 || m == 20 || m == 21 || m == 22 || m == 23 || m == 24 || m == 25 || m == 26 || m == 27 || m == 28);
        }
        lemma_first_match(v, 29);
    }
    assert(state_index_from(STATES@[30].0@, 0) == Some(30int)) by {
        let v = STATES@[30].0@;
        assert(trim(v) == v);
        assert(ascii_lower(STATES@[4].0@[0]) != ascii_lower(v[0]));
        assert forall|m: int| 0 <= m < 30 implies !#[trigger] state_entry_matches(m, v) by {
            assert(m == 0 || m == 1 || m == 2 || m == 3 || m == 4 || m == 5 || m == 6 || m == 7 || m == 8 || m == 9 || m == 10 || m == 11 || m == 12 || m == 13 || m == 14 || m == 15 || m == 16 || m == 17 || m == 18 || m == 19 || m == 20 || m == 21 || m == 22 || m == 23 || m == 24 || m == 25 || m == 26 || m == 27 || m == 28 || m == 29);
        }
        lemma_first_match(v, 30);
    }
    assert(state_index_from(STATES@[31].0@, 0) == Some(31int)) by {
        let v = STATES@[31].0@;
        assert(trim(v) == v);
        assert(ascii_lower(STATES@[4].0@[0]) != ascii_lower(v[0]));
        assert(ascii_lower(STATES@[30].0@[4]) != ascii_lower(v[4]));
        assert forall|m: int| 0 <= m < 31 implies !#[trigger] state_entry_matches(m, v) by {
            assert(m == 0 || m == 1 || m == 2 || m == 3 || m == 4 || m == 5 || m == 6 || m == 7 || m == 8 || m == 9 || m == 10 || m == 11 || m == 12 || m == 13 || m == 14 || m == 15 || m == 16 || m == 17 || m == 18 || m == 19 || m == 20 || m == 21 || m == 22 || m == 23 || m == 24 || m == 25 || m == 26 || m == 27 || m == 28 || m == 29 || m == 30);
        }
        lemma_first_match(v, 31);
    }
    assert forall|i: int| 24 <= i < 32 implies #[trigger] state_index_from(STATES@[i].0@, 0) == Some(i) by {
        assert(i == 24 || i == 25 || i == 26 || i == 27 || i == 28 || i == 29 || i == 30 || i == 31);
    }
}

/// The names of entries 32 to 39 are first matched by their own entries.
#[verifier::spinoff_prover]
proof fn lemma_names_resolve_32_39()
    ensures
        forall|i: int| 32 <= i < 40 ==> #[trigger] state_index_from(STATES@[i].0@, 0) == Some(i),
{
    reveal_strlit("Alabama");
    reveal_strlit("AL");
    reveal_strlit("Alaska");
    reveal_strlit("AK");
    reveal_strlit("Arizona");
    reveal_strlit("AZ");
    reveal_strlit("Arkansas");
    reveal_strlit("AR");
    reveal_strlit("California");
    reveal_strlit("CA");
    reveal_strlit("Colorado");
    reveal_strlit("CO");
    reveal_strlit("Connecticut");
    reveal_strlit("CT");
    reveal_strlit("Delaware");
    reveal_strlit("DE");
    reveal_strlit("District of Columbia");
    reveal_strlit("DC");
    reveal_strlit("Florida");
    reveal_strlit("FL");
    reveal_strlit("Georgia");
    reveal_strlit("GA");
    reveal_strlit("Hawaii");
    reveal_strlit("HI");
    reveal_strlit("Idaho");
    reveal_strlit("ID");
    reveal_strlit("Illinois");
    reveal_strlit("IL");
    reveal_strlit("Indiana");
    reveal_strlit("IN");
    reveal_strlit("Iowa");
    reveal_strlit("IA");
    reveal_strlit("Kansas");
    reveal_strlit("KS");
    reveal_strlit("Kentucky");
    reveal_strlit("KY");
    reveal_strlit("Louisiana");
    reveal_strlit("LA");
    reveal_strlit("Maine");
    reveal_strlit("ME");
    reveal_strlit("Maryland");
    reveal_strlit("MD");
    reveal_strlit("Massachusetts");
    reveal_strlit("MA");
    reveal_strlit("Michigan");
    reveal_strlit("MI");
    reveal_strlit("Minnesota");
    reveal_strlit("MN");
    reveal_strlit("Mississippi");
    reveal_strlit("MS");
    reveal_strlit("Missouri");
    reveal_strlit("MO");
    reveal_strlit("Montana");
    reveal_strlit("MT");
    reveal_strlit("Nebraska");
    reveal_strlit("NE");
    reveal_strlit("Nevada");
    reveal_strlit("NV");
    reveal_strlit("New Hampshire");
    reveal_strlit("NH");
    reveal_strlit("New Jersey");
    reveal_strlit("NJ");
    reveal_strlit("New Mexico");
    reveal_strlit("NM");
    reveal_strlit("New York");
    reveal_strlit("NY");
    reveal_strlit("North Carolina");
    reveal_strlit("NC");
    reveal_strlit("North Dakota");
    reveal_strlit("ND");
    reveal_strlit("Ohio");
    reveal_strlit("OH");
    reveal_strlit("Oklahoma");
    reveal_strlit("OK");
    reveal_strlit("Oregon");
    reveal_strlit("OR");
    reveal_strlit("Pennsylvania");
    reveal_strlit("PA");
    reveal_strlit("Rhode Island");
    reveal_strlit("RI");
    assert(state_index_from(STATES@[32].0@, 0) == Some(32int)) by {
        let v = STATES@[32].0@;
        assert(trim(v) == v);
        assert(ascii_lower(STATES@[3].0@[0]) != ascii_lower(v[0]));
        assert(ascii_lower(STATES@[5].0@[0]) != ascii_lower(v[0]));
        assert(ascii_lower(STATES@[7].0@[0]) != ascii_lower(v[0]));
        assert(ascii_lower(STATES@[13].0@[0]) != ascii_lower(v[0]));
        assert(ascii_lower(STATES@[17].0@[0]) != ascii_lower(v[0]));
        assert(ascii_lower(STATES@[20].0@[0]) != ascii_lower(v[0]));
        assert(ascii_lower(STATES@[22].0@[0]) != ascii_lower(v[0]));
        assert(ascii_lower(STATES@[25].0@[0]) != ascii_lower(v[0]));
        assert(ascii_lower(STATES@[27].0@[2]) != ascii_lower(v[2]));
        assert forall|m: int| 0 <= m < 32 implies !#[trigger] state_entry_matches(m, v) by {
            assert(m == 0 || m == 1 || m == 2 || m == 3 || m == 4 || m == 5 || m == 6 || m == 7 || m == 8 || m == 9 || m == 10 || m == 11 || m == 12 || m == 13 || m == 14 || m == 15 || m == 16 || m == 17 || m == 18 || m == 19 || m == 20 || m == 21 || m == 22 || m == 23 || m == 24 || m == 25 || m == 26 || m == 27 || m == 28 || m == 29 || m == 30 || m == 31);
        }
        lemma_first_match(v, 32);
    }
    assert(state_index_from(STATES@[33].0@, 0) == Some(33int)) by {
        let v = STATES@[33].0@;
        assert(trim(v) == v);
        assert forall|m: int| 0 <= m < 33 implies !#[trigger] state_entry_matches(m, v) by {
            assert(m == 0 || m == 1 || m == 2 || m == 3 || m == 4 || m == 5 || m == 6 || m == 7 || m == 8 || m == 9 || m == 10 || m == 11 || m == 12 || m == 13 || m == 14 || m == 15 || m == 16 || m == 17 || m == 18 || m == 19 || m == 20 || m == 21 || m == 22 || m == 23 || m == 24 || m == 25 || m == 26 || m == 27 || m == 28 || m == 29 || m == 30 || m == 31 || m == 32);
        }
        lemma_first_match(v, 33);
    }
    assert(state_index_from(STATES@[34].0@, 0) == Some(34int)) by {
        let v = STATES@[34].0@;
        assert(trim(v) == v);
        assert forall|m: int| 0 <= m < 34 implies !#[trigger] state_entry_matches(m, v) by {
            assert(m == 0 || m == 1 || m == 2 || m == 3 || m == 4 || m == 5 || m == 6 || m == 7 || m == 8 || m == 9 || m == 10 || m == 11 || m == 12 || m == 13 || m == 14 || m == 15 || m == 16 || m == 17 || m == 18 || m == 19 || m == 20 || m == 21 || m == 22 || m == 23 || m == 24 || m == 25 || m == 26 || m == 27 || m == 28 || m == 29 || m == 30 || m == 31 || m == 32 || m == 33);
        }
        lemma_first_match(v, 34);
    }
    assert(state_index_from(STATES@[35].0@, 0) == Some(35int)) by {
        let v = STATES@[35].0@;
        assert(trim(v) == v);
        assert(ascii_lower(STATES@[15].0@[0]) != ascii_lower(v[0]));
        assert forall|m: int| 0 <= m < 35 implies !#[trigger] state_entry_matches(m, v) by {
            assert(m == 0 || m == 1 || m == 2 || m == 3 || m == 4 || m == 5 || m == 6 || m == 7 || m == 8 || m == 9 || m == 10 || m == 11 || m == 12 || m == 13 || m == 14 || m == 15 || m == 16 || m == 17 || m == 18 || m == 19 || m == 20 || m == 21 || m == 22 || m == 23 || m == 24 || m == 25 || m == 26 || m == 27 || m == 28 || m == 29 || m == 30 || m == 31 || m == 32 || m == 33 || m == 34);
        }
        lemma_first_match(v, 35);
    }
    assert(state_index_from(STATES@[36].0@, 0) == Some(36int)) by {
        let v = STATES@[36].0@;
        assert(trim(v) == v);
        assert(ascii_lower(STATES@[3].0@[0]) != ascii_lower(v[0]));
        assert(ascii_lower(STATES@[5].0@[0]) != ascii_lower(v[0]));
        assert(ascii_lower(STATES@[7].0@[0]) != ascii_lower(v[0]));
        assert(ascii_lower(STATES@[13].0@[0]) != ascii_lower(v[0]));
        assert(ascii_lower(STATES@[17].0@[0]) != ascii_lower(v[0]));
        assert(ascii_lower(STATES@[20].0@[0]) != ascii_lower(v[0]));
        assert(ascii_lower(STATES@[22].0@[0]) != ascii_lower(v[0]));
        assert(ascii_lower(STATES@[25].0@[0]) != ascii_lower(v[0]));
        assert(ascii_lower(STATES@[27].0@[0]) != ascii_lower(v[0]));
        assert(ascii_lower(STATES@[32].0@[0]) != ascii_lower(v[0]));
        assert forall|m: int| 0 <= m < 36 implies !#[trigger] state_entry_matches(m, v) by {
            assert(m == 0 || m == 1 || m == 2 || m == 3 || m == 4 || m == 5 || m == 6 || m == 7 || m == 8 || m == 9 || m == 10 || m == 11 || m == 12 || m == 13 || m == 14 || m == 15 || m == 16 || m == 17 || m == 18 || m == 19 || m == 20 || m == 21 || m == 22 || m == 23 || m == 24 || m == 25 || m == 26 || m == 27 || m == 28 || m == 29 || m == 30 || m == 31 || m == 32 || m == 33 || m == 34 || m == 35);
        }
        lemma_first_match(v, 36);
    }
    assert(state_index_from(STATES@[37].0@, 0) == Some(37int)) by {
        let v = STATES@[37].0@;
        assert(trim(v) == v);
        assert(ascii_lower(STATES@[1].0@[0]) != ascii_lower(v[0]));
        assert(ascii_lower(STATES@[11].0@[0]) != ascii_lower(v[0]));
        assert(ascii_lower(STATES@[16].0@[0]) != ascii_lower(v[0]));
        assert(ascii_lower(STATES@[28].0@[0]) != ascii_lower(v[0]));
        assert forall|m: int| 0 <= m < 37 implies !#[trigger] state_entry_matches(m, v) by {
            assert(m == 0 || m == 1 || m == 2 || m == 3 || m == 4 || m == 5 || m == 6 || m == 7 || m == 8 || m == 9 || m == 10 || m == 11 || m == 12 || m == 13 || m == 14 || m == 15 || m == 16 || m == 17 || m == 18 || m == 19 || m == 20 || m == 21 || m == 22 || m == 23 || m == 24 || m == 25 || m == 26 || m == 27 || m == 28 || m == 29 || m == 30 || m == 31 || m == 32 || m == 33 || m == 34 || m == 35 || m == 36);
        }
        lemma_first_match(v, 37);
    }
    assert(state_index_from(STATES@[38].0@, 0) == Some(38int)) by {
        let v = STATES@[38].0@;
        assert(trim(v) == v);
        assert(ascii_lower(STATES@[34].0@[0]) != ascii_lower(v[0]));
        assert forall|m: int| 0 <= m < 38 implies !#[trigger] state_entry_matches(m, v) by {
            assert(m == 0 || m == 1 || m == 2 || m == 3 || m == 4 || m == 5 || m == 6 || m == 7 || m == 8 || m == 9 || m == 10 || m == 11 || m == 12 || m == 13 || m == 14 || m == 15 || m == 16 || m == 17 || m == 18 || m == 19 || m == 20 || m == 21 || m == 22 || m == 23 || m == 24 || m == 25 || m == 26 || m == 27 || m == 28 || m == 29 || m == 30 || m == 31 || m == 32 || m == 33 || m == 34 || m == 35 || m == 36 || m == 37);
        }
        lemma_first_match(v, 38);
    }
    assert(state_index_from(STATES@[39].0@, 0) == Some(39int)) by {
        let v = STATES@[39].0@;
        assert(trim(v) == v);
        assert(ascii_lower(STATES@[34].0@[0]) != ascii_lower(v[0]));
        assert(ascii_lower(STATES@[38].0@[0]) != ascii_lower(v[0]));
        assert forall|m: int| 0 <= m < 39 implies !#[trigger] state_entry_matches(m, v) by {
            assert(m == 0 || m == 1 || m == 2 || m == 3 || m == 4 || m == 5 || m == 6 || m == 7 || m == 8 || m == 9 || m == 10 || m == 11 || m == 12 || m == 13 || m == 14 || m == 15 || m == 16 || m == 17 || m == 18 || m == 19 || m == 20 || m == 21 || m == 22 || m == 23 || m == 24 || m == 25 || m == 26 || m == 27 || m == 28 || m == 29 || m == 30 || m == 31 || m == 32 || m == 33 || m == 34 || m == 35 || m == 36 || m == 37 || m == 38);
        }
        lemma_first_match(v, 39);
    }
    assert forall|i: int| 32 <= i < 40 implies #[trigger] state_index_from(STATES@[i].0@, 0) == Some(i) by {
        assert(i == 32 || i == 33 || i == 34 || i == 35 || i == 36 || i == 37 || i == 38 || i == 39);
    }
}

/// The names of entries 40 to 47 are first matched by their own entries.
#[verifier::spinoff_prover]
proof fn lemma_names_resolve_40_47()
    ensures
        forall|i: int| 40 <= i < 48 ==> #[trigger] state_index_from(STATES@[i].0@, 0) == Some(i),
{
    reveal_strlit("Alabama");
    reveal_strlit("AL");
    reveal_strlit("Alaska");
    reveal_strlit("AK");
    reveal_strlit("Arizona");
    reveal_strlit("AZ");
    reveal_strlit("Arkansas");
    reveal_strlit("AR");
    reveal_strlit("California");
    reveal_strlit("CA");
    reveal_strlit("Colorado");
    reveal_strlit("CO");
    reveal_strlit("Connecticut");
    reveal_strlit("CT");
    reveal_strlit("Delaware");
    reveal_strlit("DE");
    reveal_strlit("District of Columbia");
    reveal_strlit("DC");
    reveal_strlit("Florida");
    reveal_strlit("FL");
    reveal_strlit("Georgia");
    reveal_strlit("GA");
    reveal_strlit("Hawaii");
    reveal_strlit("HI");
    reveal_strlit("Idaho");
    reveal_strlit("ID");
    reveal_strlit("Illinois");
    reveal_strlit("IL");
    reveal_strlit("Indiana");
    reveal_strlit("IN");
    reveal_strlit("Iowa");
    reveal_strlit("IA");
    reveal_strlit("Kansas");
    reveal_strlit("KS");
    reveal_strlit("Kentucky");
    reveal_strlit("KY");
    reveal_strlit("Louisiana");
    reveal_strlit("LA");
    reveal_strlit("Maine");
    reveal_strlit("ME");
    reveal_strlit("Maryland");
    reveal_strlit("MD");
    reveal_strlit("Massachusetts");
    reveal_strlit("MA");
    reveal_strlit("Michigan");
    reveal_strlit("MI");
    reveal_strlit("Minnesota");
    reveal_strlit("MN");
    reveal_strlit("Mississippi");
    reveal_strlit("MS");
    reveal_strlit("Missouri");
    reveal_strlit("MO");
    reveal_strlit("Montana");
    reveal_strlit("MT");
    reveal_strlit("Nebraska");
    reveal_strlit("NE");
    reveal_strlit("Nevada");
    reveal_strlit("NV");
    reveal_strlit("New Hampshire");
    reveal_strlit("NH");
    reveal_strlit("New Jersey");
    reveal_strlit("NJ");
    reveal_strlit("New Mexico");
    reveal_strlit("NM");
    reveal_strlit("New York");
    reveal_strlit("NY");
    reveal_strlit("North Carolina");
    reveal_strlit("NC");
    reveal_strlit("North Dakota");
    reveal_strlit("ND");
    reveal_strlit("Ohio");
    reveal_strlit("OH");
    reveal_strlit("Oklahoma");
    reveal_strlit("OK");
    reveal_strlit("Oregon");
    reveal_strlit("OR");
    reveal_strlit("Pennsylvania");
    reveal_strlit("PA");
    reveal_strlit("Rhode Island");
    reveal_strlit("RI");
    reveal_strlit("South Carolina");
    reveal_strlit("SC");
    reveal_strlit("South Dakota");
    reveal_strlit("SD");
    reveal_strlit("Tennessee");
    reveal_strlit("TN");
    reveal_strlit("Texas");
    reveal_strlit("TX");
    reveal_strlit("Utah");
    reveal_strlit("UT");
    reveal_strlit("Vermont");
    reveal_strlit("VT");
    reveal_strlit("Virginia");
    reveal_strlit("VA");
    reveal_strlit("Washington");
    reveal_strlit("WA");
    assert(state_index_from(STATES@[40].0@, 0) == Some(40int)) by {
        let v = STATES@[40].0@;
        assert(trim(v) == v);
        assert(ascii_lower(STATES@[33].0@[0]) != ascii_lower(v[0]));
        assert forall|m: int| 0 <= m < 40 implies !#[trigger] state_entry_matches(m, v) by {
            assert(m == 0 || m == 1 || m == 2 || m == 3 || m == 4 || m == 5 || m == 6 || m == 7 || m == 8 || m == 9 || m == 10 || m == 11 || m == 12 || m == 13 || m == 14 || m == 15 || m == 16 || m == 17 || m == 18 || m == 19 || m == 20 || m == 21 || m == 22 || m == 23 || m == 24 || m == 25 || m == 26 || m == 27 || m == 28 || m == 29 || m == 30 || m == 31 || m == 32 || m == 33 || m == 34 || m == 35 || m == 36 || m == 37 || m == 38 || m == 39);
        }
        lemma_first_match(v, 40);
    }
    assert(state_index_from(STATES@[41].0@, 0) == Some(41int)) by {
        let v = STATES@[41].0@;
        assert(trim(v) == v);
        assert(ascii_lower(STATES@[34].0@[0]) != ascii_lower(v[0]));
        assert(ascii_lower(STATES@[38].0@[0]) != ascii_lower(v[0]));
        assert(ascii_lower(STATES@[39].0@[0]) != ascii_lower(v[0]));
        assert forall|m: int| 0 <= m < 41 implies !#[trigger] state_entry_matches(m, v) by {
            assert(m == 0 || m == 1 || m == 2 || m == 3 || m == 4 || m == 5 || m == 6 || m == 7 || m == 8 || m == 9 || m == 10 || m == 11 || m == 12 || m == 13 || m == 14 || m == 15 || m == 16 || m == 17 || m == 18 || m == 19 || m == 20 || m == 21 || m == 22 || m == 23 || m == 24 || m == 25 || m == 26 || m == 27 || m == 28 || m == 29 || m == 30 || m == 31 || m == 32 || m == 33 || m == 34 || m == 35 || m == 36 || m == 37 || m == 38 || m == 39 || m == 40);
        }
        lemma_first_match(v, 41);
    }
    assert(state_index_from(STATES@[42].0@, 0) == Some(42int)) by {
        let v = STATES@[42].0@;
        assert(trim(v) == v);
        assert(ascii_lower(STATES@[18].0@[0]) != ascii_lower(v[0]));
        assert(ascii_lower(STATES@[23].0@[0]) != ascii_lower(v[0]));
        assert forall|m: int| 0 <= m < 42 implies !#[trigger] state_entry_matches(m, v) by {
            assert(m == 0 || m == 1 || m == 2 || m == 3 || m == 4 || m == 5 || m == 6 || m == 7 || m == 8 || m == 9 || m == 10 || m == 11 || m == 12 || m == 13 || m == 14 || m == 15 || m == 16 || m == 17 || m == 18 || m == 19 || m == 20 || m == 21 || m == 22 || m == 23 || m == 24 || m == 25 || m == 26 || m == 27 || m == 28 || m == 29 || m == 30 || m == 31 || m == 32 || m == 33 || m == 34 || m == 35 || m == 36 || m == 37 || m == 38 || m == 39 || m == 40 || m == 41);
        }
        lemma_first_match(v, 42);
    }
    assert(state_index_from(STATES@[43].0@, 0) == Some(43int)) by {
        let v = STATES@[43].0@;
        assert(trim(v) == v);
        assert(ascii_lower(STATES@[12].0@[0]) != ascii_lower(v[0]));
        assert(ascii_lower(STATES@[19].0@[0]) != ascii_lower(v[0]));
        assert forall|m: int| 0 <= m < 43 implies !#[trigger] state_entry_matches(m, v) by {
            assert(m == 0 || m == 1 || m == 2 || m == 3 || m == 4 || m == 5 || m == 6 || m == 7 || m == 8 || m == 9 || m == 10 || m == 11 || m == 12 || m == 13 || m == 14 || m == 15 || m == 16 || m == 17 || m == 18 || m == 19 || m == 20 || m == 21 || m == 22 || m == 23 || m == 24 || m == 25 || m == 26 || m == 27 || m == 28 || m == 29 || m == 30 || m == 31 || m == 32 || m == 33 || m == 34 || m == 35 || m == 36 || m == 37 || m == 38 || m == 39 || m == 40 || m == 41 || m == 42);
        }
        lemma_first_match(v, 43);
    }
    assert(state_index_from(STATES@[44].0@, 0) == Some(44int)) by {
        let v = STATES@[44].0@;
        assert(trim(v) == v);
        assert(ascii_lower(STATES@[15].0@[0]) != ascii_lower(v[0]));
        assert(ascii_lower(STATES@[35].0@[0]) != ascii_lower(v[0]));
        assert forall|m: int| 0 <= m < 44 implies !#[trigger] state_entry_matches(m, v) by {
            assert(m == 0 || m == 1 || m == 2 || m == 3 || m == 4 || m == 5 || m == 6 || m == 7 || m == 8 || m == 9 || m == 10 || m == 11 || m == 12 || m == 13 || m == 14 || m == 15 || m == 16 || m == 17 || m == 18 || m == 19 || m == 20 || m == 21 || m == 22 || m == 23 || m == 24 || m == 25 || m == 26 || m == 27 || m == 28 || m == 29 || m == 30 || m == 31 || m == 32 || m == 33 || m == 34 || m == 35 || m == 36 || m == 37 || m == 38 || m == 39 || m == 40 || m == 41 || m == 42 || m == 43);
        }
        lemma_first_match(v, 44);
    }
    assert(state_index_from(STATES@[45].0@, 0) == Some(45int)) by {
        let v = STATES@[45].0@;
        assert(trim(v) == v);
        assert(ascii_lower(STATES@[0].0@[0]) != ascii_lower(v[0]));
        assert(ascii_lower(STATES@[2].0@[0]) != ascii_lower(v[0]));
        assert(ascii_lower(STATES@[9].0@[0]) != ascii_lower(v[0]));
        assert(ascii_lower(STATES@[10].0@[0]) != ascii_lower(v[0]));
        assert(ascii_lower(STATES@[14].0@[0]) != ascii_lower(v[0]));
        assert(ascii_lower(STATES@[26].0@[0]) != ascii_lower(v[0]));
        assert forall|m: int| 0 <= m < 45 implies !#[trigger] state_entry_matches(m, v) by {
            assert(m == 0 || m == 1 || m == 2 || m == 3 || m == 4 || m == 5 || m == 6 || m == 7 || m == 8 || m == 9 || m == 10 || m == 11 || m == 12 || m == 13 || m == 14 || m == 15 || m == 16 || m == 17 || m == 18 || m == 19 || m == 20 || m == 21 || m == 22 || m == 23 || m == 24 || m == 25 || m == 26 || m == 27 || m == 28 || m == 29 || m == 30 || m == 31 || m == 32 || m == 33 || m == 34 || m == 35 || m == 36 || m == 37 || m == 38 || m == 39 || m == 40 || m == 41 || m == 42 || m == 43 || m == 44);
        }
        lemma_first_match(v, 45);
    }
    assert(state_index_from(STATES@[46].0@, 0) == Some(46int)) by {
        let v = STATES@[46].0@;
        assert(trim(v) == v);
        assert(ascii_lower(STATES@[3].0@[0]) != ascii_lower(v[0]));
        assert(ascii_lower(STATES@[5].0@[0]) != ascii_lower(v[0]));
        assert(ascii_lower(STATES@[7].0@[0]) != ascii_lower(v[0]));
        assert(ascii_lower(STATES@[13].0@[0]) != ascii_lower(v[0]));
        assert(ascii_lower(STATES@[17].0@[0]) != ascii_lower(v[0]));
        assert(ascii_lower(STATES@[20].0@[0]) != ascii_lower(v[0]));
        assert(ascii_lower(STATES@[22].0@[0]) != ascii_lower(v[0]));
        assert(ascii_lower(STATES@[25].0@[0]) != ascii_lower(v[0]));
        assert(ascii_lower(STATES@[27].0@[0]) != ascii_lower(v[0]));
        assert(ascii_lower(STATES@[32].0@[0]) != ascii_lower(v[0]));
        assert(ascii_lower(STATES@[36].0@[0]) != ascii_lower(v[0]));
        assert forall|m: int| 0 <= m < 46 implies !#[trigger] state_entry_matches(m, v) by {
            assert(m == 0 || m == 1 || m == 2 || m == 3 || m == 4 || m == 5 || m == 6 || m == 7 || m == 8 || m == 9 || m == 10 || m == 11 || m == 12 || m == 13 || m == 14 || m == 15 || m == 16 || m == 17 || m == 18 || m == 19 || m == 20 || m == 21 || m == 22 || m == 23 || m == 24 || m == 25 || m == 26 || m == 27 || m == 28 || m == 29 || m == 30 || m == 31 || m == 32 || m == 33 || m == 34 || m == 35 || m == 36 || m == 37 || m == 38 || m == 39 || m == 40 || m == 41 || m == 42 || m == 43 || m == 44 || m == 45);
        }
        lemma_first_match(v, 46);
    }
    assert(state_index_from(STATES@[47].0@, 0) == Some(47int)) by {
        let v = STATES@[47].0@;
        assert(trim(v) == v);
        assert(ascii_lower(STATES@[4].0@[0]) != ascii_lower(v[0]));
        assert(ascii_lower(STATES@[30].0@[0]) != ascii_lower(v[0]));
        assert(ascii_lower(STATES@[31].0@[0]) != ascii_lower(v[0]));
        assert forall|m: int| 0 <= m < 47 implies !#[trigger] state_entry_matches(m, v) by {
            assert(m == 0 || m == 1 || m == 2 || m == 3 || m == 4 || m == 5 || m == 6 || m == 7 || m == 8 || m == 9 || m == 10 || m == 11 || m == 12 || m == 13 || m == 14 || m == 15 || m == 16 || m == 17 || m == 18 || m == 19 || m == 20 || m == 21 || m == 22 || m == 23 || m == 24 || m == 25 || m == 26 || m == 27 || m == 28 || m == 29 || m == 30 || m == 31 || m == 32 || m == 33 || m == 34 || m == 35 || m == 36 || m == 37 || m == 38 || m == 39 || m == 40 || m == 41 || m == 42 || m == 43 || m == 44 || m == 45 || m == 46);
        }
        lemma_first_match(v, 47);
    }
    assert forall|i: int| 40 <= i < 48 implies #[trigger] state_index_from(STATES@[i].0@, 0) == Some(i) by {
        assert(i == 40 || i == 41 || i == 42 || i == 43 || i == 44 || i == 45 || i == 46 || i == 47);
    }
}

/// The names of entries 48 to 55 are first matched by their own entries.
#[verifier::spinoff_prover]
proof fn lemma_names_resolve_48_55()
    ensures
        forall|i: int| 48 <= i < 56 ==> #[trigger] state_index_from(STATES@[i].0@, 0) == Some(i),
{
    reveal_strlit("Alabama");
    reveal_strlit("AL");
    reveal_strlit("Alaska");
    reveal_strlit("AK");
    reveal_strlit("Arizona");
    reveal_strlit("AZ");
    reveal_strlit("Arkansas");
    reveal_strlit("AR");
    reveal_strlit("California");
    reveal_strlit("CA");
    reveal_strlit("Colorado");
    reveal_strlit("CO");
    reveal_strlit("Connecticut");
    reveal_strlit("CT");
    reveal_strlit("Delaware");
    reveal_strlit("DE");
    reveal_strlit("District of Columbia");
    reveal_strlit("DC");
    reveal_strlit("Florida");
    reveal_strlit("FL");
    reveal_strlit("Georgia");
    reveal_strlit("GA");
    reveal_strlit("Hawaii");
    reveal_strlit("HI");
    reveal_strlit("Idaho");
    reveal_strlit("ID");
    reveal_strlit("Illinois");
    reveal_strlit("IL");
    reveal_strlit("Indiana");
    reveal_strlit("IN");
    reveal_strlit("Iowa");
    reveal_strlit("IA");
    reveal_strlit("Kansas");
    reveal_strlit("KS");
    reveal_strlit("Kentucky");
    reveal_strlit("KY");
    reveal_strlit("Louisiana");
    reveal_strlit("LA");
    reveal_strlit("Maine");
    reveal_strlit("ME");
    reveal_strlit("Maryland");
    reveal_strlit("MD");
    reveal_strlit("Massachusetts");
    reveal_strlit("MA");
    reveal_strlit("Michigan");
    reveal_strlit("MI");
    reveal_strlit("Minnesota");
    reveal_strlit("MN");
    reveal_strlit("Mississippi");
    reveal_strlit("MS");
    reveal_strlit("Missouri");
    reveal_strlit("MO");
    reveal_strlit("Montana");
    reveal_strlit("MT");
    reveal_strlit("Nebraska");
    reveal_strlit("NE");
    reveal_strlit("Nevada");
    reveal_strlit("NV");
    reveal_strlit("New Hampshire");
    reveal_strlit("NH");
    reveal_strlit("New Jersey");
    reveal_strlit("NJ");
    reveal_strlit("New Mexico");
    reveal_strlit("NM");
    reveal_strlit("New York");
    reveal_strlit("NY");
    reveal_strlit("North Carolina");
    reveal_strlit("NC");
    reveal_strlit("North Dakota");
    reveal_strlit("ND");
    reveal_strlit("Ohio");
    reveal_strlit("OH");
    reveal_strlit("Oklahoma");
    reveal_strlit("OK");
    reveal_strlit("Oregon");
    reveal_strlit("OR");
    reveal_strlit("Pennsylvania");
    reveal_strlit("PA");
    reveal_strlit("Rhode Island");
    reveal_strlit("RI");
    reveal_strlit("South Carolina");
    reveal_strlit("SC");
    reveal_strlit("South Dakota");
    reveal_strlit("SD");
    reveal_strlit("Tennessee");
    reveal_strlit("TN");
    reveal_strlit("Texas");
    reveal_strlit("TX");
    reveal_strlit("Utah");
    reveal_strlit("UT");
    reveal_strlit("Vermont");
    reveal_strlit("VT");
    reveal_strlit("Virginia");
    reveal_strlit("VA");
    reveal_strlit("Washington");
    reveal_strlit("WA");
    reveal_strlit("West Virginia");
    reveal_strlit("WV");
    reveal_strlit("Wisconsin");
    reveal_strlit("WI");
    reveal_strlit("Wyoming");
    reveal_strlit("WY");
    reveal_strlit("American Samoa");
    reveal_strlit("AS");
    reveal_strlit("Guam");
    reveal_strlit("GU");
    reveal_strlit("Northern Mariana Islands");
    reveal_strlit("MP");
    reveal_strlit("Puerto Rico");
    reveal_strlit("PR");
    reveal_strlit("US Virgin Islands");
    reveal_strlit("VI");
    assert(state_index_from(STATES@[48].0@, 0) == Some(48int)) by {
        let v = STATES@[48].0@;
        assert(trim(v) == v);
        assert(ascii_lower(STATES@[21].0@[0]) != ascii_lower(v[0]));
        assert(ascii_lower(STATES@[29].0@[0]) != ascii_lower(v[0]));
        assert forall|m: int| 0 <= m < 48 implies !#[trigger] state_entry_matches(m, v) by {
            assert(m == 0 || m == 1 || m == 2 || m == 3 || m == 4 || m == 5 || m == 6 || m == 7 || m == 8 || m == 9 || m == 10 || m == 11 || m == 12 || m == 13 || m == 14 || m == 15 || m == 16 || m == 17 || m == 18 || m == 19 || m == 20 || m == 21 || m == 22 || m == 23 || m == 24 || m == 25 || m == 26 || m == 27 || m == 28 || m == 29 || m == 30 || m == 31 || m == 32 || m == 33 || m == 34 || m == 35 || m == 36 || m == 37 || m == 38 || m == 39 || m == 40 || m == 41 || m == 42 || m == 43 || m == 44 || m == 45 || m == 46 || m == 47);
        }
        lemma_first_match(v, 48);
    }
    assert(state_index_from(STATES@[49].0@, 0) == Some(49int)) by {
        let v = STATES@[49].0@;
        assert(trim(v) == v);
        assert(ascii_lower(STATES@[18].0@[0]) != ascii_lower(v[0]));
        assert(ascii_lower(STATES@[23].0@[0]) != ascii_lower(v[0]));
        assert(ascii_lower(STATES@[42].0@[0]) != ascii_lower(v[0]));
        assert forall|m: int| 0 <= m < 49 implies !#[trigger] state_entry_matches(m, v) by {
            assert(m == 0 || m == 1 || m == 2 || m == 3 || m == 4 || m == 5 || m == 6 || m == 7 || m == 8 || m == 9 || m == 10 || m == 11 || m == 12 || m == 13 || m == 14 || m == 15 || m == 16 || m == 17 || m == 18 || m == 19 || m == 20 || m == 21 || m == 22 || m == 23 || m == 24 || m == 25 || m == 26 || m == 27 || m == 28 || m == 29 || m == 30 || m == 31 || m == 32 || m == 33 || m == 34 || m == 35 || m == 36 || m == 37 || m == 38 || m == 39 || m == 40 || m == 41 || m == 42 || m == 43 || m == 44 || m == 45 || m == 46 || m == 47 || m == 48);
        }
        lemma_first_match(v, 49);
    }
    assert(state_index_from(STATES@[50].0@, 0) == Some(50int)) by {
        let v = STATES@[50].0@;
        assert(trim(v) == v);
        assert(ascii_lower(STATES@[0].0@[0]) != ascii_lower(v[0]));
        assert(ascii_lower(STATES@[2].0@[0]) != ascii_lower(v[0]));
        assert(ascii_lower(STATES@[9].0@[0]) != ascii_lower(v[0]));
        assert(ascii_lower(STATES@[10].0@[0]) != ascii_lower(v[0]));
        assert(ascii_lower(STATES@[14].0@[0]) != ascii_lower(v[0]));
        assert(ascii_lower(STATES@[26].0@[0]) != ascii_lower(v[0]));
        assert(ascii_lower(STATES@[45].0@[0]) != ascii_lower(v[0]));
        assert forall|m: int| 0 <= m < 50 implies !#[trigger] state_entry_matches(m, v) by {
            assert(m == 0 || m == 1 || m == 2 || m == 3 || m == 4 || m == 5 || m == 6 || m == 7 || m == 8 || m == 9 || m == 10 || m == 11 || m == 12 || m == 13 || m == 14 || m == 15 || m == 16 || m == 17 || m == 18 || m == 19 || m == 20 || m == 21 || m == 22 || m == 23 || m == 24 || m == 25 || m == 26 || m == 27 || m == 28 || m == 29 || m == 30 || m == 31 || m == 32 || m == 33 || m == 34 || m == 35 || m == 36 || m == 37 || m == 38 || m == 39 || m == 40 || m == 41 || m == 42 || m == 43 || m == 44 || m == 45 || m == 46 || m == 47 || m == 48 || m == 49);
        }
        lemma_first_match(v, 50);
    }
    assert(state_index_from(STATES@[51].0@, 0) == Some(51int)) by {
        let v = STATES@[51].0@;
        assert(trim(v) == v);
        assert(ascii_lower(STATES@[33].0@[0]) != ascii_lower(v[0]));
        assert(ascii_lower(STATES@[40].0@[0]) != ascii_lower(v[0]));
        assert forall|m: int| 0 <= m < 51 implies !#[trigger] state_entry_matches(m, v) by {
            assert(m == 0 || m == 1 || m == 2 || m == 3 || m == 4 || m == 5 || m == 6 || m == 7 || m == 8 || m == 9 || m == 10 || m == 11 || m == 12 || m == 13 || m == 14 || m == 15 || m == 16 || m == 17 || m == 18 || m == 19 || m == 20 || m == 21 || m == 22 || m == 23 || m == 24 || m == 25 || m == 26 || m == 27 || m == 28 || m == 29 || m == 30 || m == 31 || m == 32 || m == 33 || m == 34 || m == 35 || m == 36 || m == 37 || m == 38 || m == 39 || m == 40 || m == 41 || m == 42 || m == 43 || m == 44 || m == 45 || m == 46 || m == 47 || m == 48 || m == 49 || m == 50);
        }
        lemma_first_match(v, 51);
    }
    assert(state_index_from(STATES@[52].0@, 0) == Some(52int)) by {
        let v = STATES@[52].0@;
        assert(trim(v) == v);
        assert(ascii_lower(STATES@[15].0@[0]) != ascii_lower(v[0]));
        assert(ascii_lower(STATES@[35].0@[0]) != ascii_lower(v[0]));
        assert(ascii_lower(STATES@[44].0@[0]) != ascii_lower(v[0]));
        assert forall|m: int| 0 <= m < 52 implies !#[trigger] state_entry_matches(m, v) by {
            assert(m == 0 || m == 1 || m == 2 || m == 3 || m == 4 || m == 5 || m == 6 || m == 7 || m == 8 || m == 9 || m == 10 || m == 11 || m == 12 || m == 13 || m == 14 || m == 15 || m == 16 || m == 17 || m == 18 || m == 19 || m == 20 || m == 21 || m == 22 || m == 23 || m == 24 || m == 25 || m == 26 || m == 27 || m == 28 || m == 29 || m == 30 || m == 31 || m == 32 || m == 33 || m == 34 || m == 35 || m == 36 || m == 37 || m == 38 || m == 39 || m == 40 || m == 41 || m == 42 || m == 43 || m == 44 || m == 45 || m == 46 || m == 47 || m == 48 || m == 49 || m == 50 || m == 51);
        }
        lemma_first_match(v, 52);
    }
    assert(state_index_from(STATES@[53].0@, 0) == Some(53int)) by {
        let v = STATES@[53].0@;
        assert(trim(v) == v);
        assert forall|m: int| 0 <= m < 53 implies !#[trigger] state_entry_matches(m, v) by {
            assert(m == 0 || m == 1 || m == 2 || m == 3 || m == 4 || m == 5 || m == 6 || m == 7 || m == 8 || m == 9 || m == 10 || m == 11 || m == 12 || m == 13 || m == 14 || m == 15 || m == 16 || m == 17 || m == 18 || m == 19 || m == 20 || m == 21 || m == 22 || m == 23 || m == 24 || m == 25 || m == 26 || m == 27 || m == 28 || m == 29 || m == 30 || m == 31 || m == 32 || m == 33 || m == 34 || m == 35 || m == 36 || m == 37 || m == 38 || m == 39 || m == 40 || m == 41 || m == 42 || m == 43 || m == 44 || m == 45 || m == 46 || m == 47 || m == 48 || m == 49 || m == 50 || m == 51 || m == 52);
        }
        lemma_first_match(v, 53);
    }
    assert(state_index_from(STATES@[54].0@, 0) == Some(54int)) by {
        let v = STATES@[54].0@;
        assert(trim(v) == v);
        assert(ascii_lower(STATES@[6].0@[0]) != ascii_lower(v[0]));
        assert(ascii_lower(STATES@[24].0@[0]) != ascii_lower(v[0]));
        assert forall|m: int| 0 <= m < 54 implies !#[trigger] state_entry_matches(m, v) by {
            assert(m == 0 || m == 1 || m == 2 || m == 3 || m == 4 || m == 5 || m == 6 || m == 7 || m == 8 || m == 9 || m == 10 || m == 11 || m == 12 || m == 13 || m == 14 || m == 15 || m == 16 || m == 17 || m == 18 || m == 19 || m == 20 || m == 21 || m == 22 || m == 23 || m == 24 || m == 25 || m == 26 || m == 27 || m == 28 || m == 29 || m == 30 || m == 31 || m == 32 || m == 33 || m == 34 || m == 35 || m == 36 || m == 37 || m == 38 || m == 39 || m == 40 || m == 41 || m == 42 || m == 43 || m == 44 || m == 45 || m == 46 || m == 47 || m == 48 || m == 49 || m == 50 || m == 51 || m == 52 || m == 53);
        }
        lemma_first_match(v, 54);
    }
    assert(state_index_from(STATES@[55].0@, 0) == Some(55int)) by {
        let v = STATES@[55].0@;
        assert(trim(v) == v);
        assert forall|m: int| 0 <= m < 55 implies !#[trigger] state_entry_matches(m, v) by {
            assert(m == 0 || m == 1 || m == 2 || m == 3 || m == 4 || m == 5 || m == 6 || m == 7 || m == 8 || m == 9 || m == 10 || m == 11 || m == 12 || m == 13 || m == 14 || m == 15 || m == 16 || m == 17 || m == 18 || m == 19 || m == 20 || m == 21 || m == 22 || m == 23 || m == 24 || m == 25 || m == 26 || m == 27 || m == 28 || m == 29 || m == 30 || m == 31 || m == 32 || m == 33 || m == 34 || m == 35 || m == 36 || m == 37 || m == 38 || m == 39 || m == 40 || m == 41 || m == 42 || m == 43 || m == 44 || m == 45 || m == 46 || m == 47 || m == 48 || m == 49 || m == 50 || m == 51 || m == 52 || m == 53 || m == 54);
        }
        lemma_first_match(v, 55);
    }
    assert forall|i: int| 48 <= i < 56 implies #[trigger] state_index_from(STATES@[i].0@, 0) == Some(i) by {
        assert(i == 48 || i == 49 || i == 50 || i == 51 || i == 52 || i == 53 || i == 54 || i == 55);
    }
}

/// The names of entries 56 to 56 are first matched by their own entries.
#[verifier::spinoff_prover]
proof fn lemma_names_resolve_56_56()
    ensures
        forall|i: int| 56 <= i < 57 ==> #[trigger] state_index_from(STATES@[i].0@, 0) == Some(i),
{
    reveal_strlit("Alabama");
    reveal_strlit("AL");
    reveal_strlit("Alaska");
    reveal_strlit("AK");
    reveal_strlit("Arizona");
    reveal_strlit("AZ");
    reveal_strlit("Arkansas");
    reveal_strlit("AR");
    reveal_strlit("California");
    reveal_strlit("CA");
    reveal_strlit("Colorado");
    reveal_strlit("CO");
    reveal_strlit("Connecticut");
    reveal_strlit("CT");
    reveal_strlit("Delaware");
    reveal_strlit("DE");
    reveal_strlit("District of Columbia");
    reveal_strlit("DC");
    reveal_strlit("Florida");
    reveal_strlit("FL");
    reveal_strlit("Georgia");
    reveal_strlit("GA");
    reveal_strlit("Hawaii");
    reveal_strlit("HI");
    reveal_strlit("Idaho");
    reveal_strlit("ID");
    reveal_strlit("Illinois");
    reveal_strlit("IL");
    reveal_strlit("Indiana");
    reveal_strlit("IN");
    reveal_strlit("Iowa");
    reveal_strlit("IA");
    reveal_strlit("Kansas");
    reveal_strlit("KS");
    reveal_strlit("Kentucky");
    reveal_strlit("KY");
    reveal_strlit("Louisiana");
    reveal_strlit("LA");
    reveal_strlit("Maine");
    reveal_strlit("ME");
    reveal_strlit("Maryland");
    reveal_strlit("MD");
    reveal_strlit("Massachusetts");
    reveal_strlit("MA");
    reveal_strlit("Michigan");
    reveal_strlit("MI");
    reveal_strlit("Minnesota");
    reveal_strlit("MN");
    reveal_strlit("Mississippi");
    reveal_strlit("MS");
    reveal_strlit("Missouri");
    reveal_strlit("MO");
    reveal_strlit("Montana");
    reveal_strlit("MT");
    reveal_strlit("Nebraska");
    reveal_strlit("NE");
    reveal_strlit("Nevada");
    reveal_strlit("NV");
    reveal_strlit("New Hampshire");
    reveal_strlit("NH");
    reveal_strlit("New Jersey");
    reveal_strlit("NJ");
    reveal_strlit("New Mexico");
    reveal_strlit("NM");
    reveal_strlit("New York");
    reveal_strlit("NY");
    reveal_strlit("North Carolina");
    reveal_strlit("NC");
    reveal_strlit("North Dakota");
    reveal_strlit("ND");
    reveal_strlit("Ohio");
    reveal_strlit("OH");
    reveal_strlit("Oklahoma");
    reveal_strlit("OK");
    reveal_strlit("Oregon");
    reveal_strlit("OR");
    reveal_strlit("Pennsylvania");
    reveal_strlit("PA");
    reveal_strlit("Rhode Island");
    reveal_strlit("RI");
    reveal_strlit("South Carolina");
    reveal_strlit("SC");
    reveal_strlit("South Dakota");
    reveal_strlit("SD");
    reveal_strlit("Tennessee");
    reveal_strlit("TN");
    reveal_strlit("Texas");
    reveal_strlit("TX");
    reveal_strlit("Utah");
    reveal_strlit("UT");
    reveal_strlit("Vermont");
    reveal_strlit("VT");
    reveal_strlit("Virginia");
    reveal_strlit("VA");
    reveal_strlit("Washington");
    reveal_strlit("WA");
    reveal_strlit("West Virginia");
    reveal_strlit("WV");
    reveal_strlit("Wisconsin");
    reveal_strlit("WI");
    reveal_strlit("Wyoming");
    reveal_strlit("WY");
    reveal_strlit("American Samoa");
    reveal_strlit("AS");
    reveal_strlit("Guam");
    reveal_strlit("GU");
    reveal_strlit("Northern Mariana Islands");
    reveal_strlit("MP");
    reveal_strlit("Puerto Rico");
    reveal_strlit("PR");
    reveal_strlit("US Virgin Islands");
    reveal_strlit("VI");
    reveal_strlit("US Minor Outlying Islands");
    reveal_strlit("UM");
    assert(state_index_from(STATES@[56].0@, 0) == Some(56int)) by {
        let v = STATES@[56].0@;
        assert(trim(v) == v);
        assert forall|m: int| 0 <= m < 56 implies !#[trigger] state_entry_matches(m, v) by {
            assert(m == 0 || m == 1 || m == 2 || m == 3 || m == 4 || m == 5 || m == 6 || m == 7 || m == 8 || m == 9 || m == 10 || m == 11 || m == 12 || m == 13 || m == 14 || m == 15 || m == 16 || m == 17 || m == 18 || m == 19 || m == 20 || m == 21 || m == 22 || m == 23 || m == 24 || m == 25 || m == 26 || m == 27 || m == 28 || m == 29 || m == 30 || m == 31 || m == 32 || m == 33 || m == 34 || m == 35 || m == 36 || m == 37 || m == 38 || m == 39 || m == 40 || m == 41 || m == 42 || m == 43 || m == 44 || m == 45 || m == 46 || m == 47 || m == 48 || m == 49 || m == 50 || m == 51 || m == 52 || m == 53 || m == 54 || m == 55);
        }
        lemma_first_match(v, 56);
    }
    assert forall|i: int| 56 <= i < 57 implies #[trigger] state_index_from(STATES@[i].0@, 0) == Some(i) by {
        assert(i == 56);
    }
}

/// Every name of the table is first matched by its own entry.
pub proof fn lemma_names_resolve()
    ensures
        forall|i: int| 0 <= i < 57 ==> #[trigger] state_index_from(STATES@[i].0@, 0) == Some(i),
{
    lemma_names_resolve_0_7();
    lemma_names_resolve_8_15();
    lemma_names_resolve_16_23();
    lemma_names_resolve_24_31();
    lemma_names_resolve_32_39();
    lemma_names_resolve_40_47();
    lemma_names_resolve_48_55();
    lemma_names_resolve_56_56();
}

/// The entry `state_index_from` gives names the value, and no entry before it does.
proof fn lemma_index_is_first(v: Seq<char>, k: int)
    requires
        0 <= k <= 57,
    ensures
        match state_index_from(v, k) {
            Some(j) => k <= j < 57 && state_entry_matches(j, v) && forall|m: int|
                k <= m < j ==> !#[trigger] state_entry_matches(m, v),
            None => forall|m: int| k <= m < 57 ==> !#[trigger] state_entry_matches(m, v),
        },
    decreases 57 - k,
{
    if k < 57 && !state_entry_matches(k, v) {
        lemma_index_is_first(v, k + 1);
    }
}

proof fn lemma_eq_ignore_symmetric(a: Seq<char>, b: Seq<char>)
    requires
        eq_ignore_ascii_case(a, b),
    ensures
        eq_ignore_ascii_case(b, a),
{
    assert forall|k: int| 0 <= k < b.len() implies ascii_lower(#[trigger] b[k]) == ascii_lower(a[k]) by {
        assert(ascii_lower(a[k]) == ascii_lower(b[k]));
    }
}

proof fn lemma_eq_ignore_transitive(a: Seq<char>, b: Seq<char>, c: Seq<char>)
    requires
        eq_ignore_ascii_case(a, b),
        eq_ignore_ascii_case(b, c),
    ensures
        eq_ignore_ascii_case(a, c),
{
    assert forall|k: int| 0 <= k < a.len() implies ascii_lower(#[trigger] a[k]) == ascii_lower(c[k]) by {
        assert(ascii_lower(a[k]) == ascii_lower(b[k]));
        assert(ascii_lower(b[k]) == ascii_lower(c[k]));
    }
}

/// Two codes of upper-case letters that agree up to ASCII case are equal.
proof fn lemma_codes_equal(a: Seq<char>, b: Seq<char>)
    requires
        a.len() == 2 && 'A' <= a[0] <= 'Z' && 'A' <= a[1] <= 'Z',
        b.len() == 2 && 'A' <= b[0] <= 'Z' && 'A' <= b[1] <= 'Z',
        eq_ignore_ascii_case(a, b),
    ensures
        a == b,
{
    assert(ascii_lower(a[0]) == ascii_lower(b[0]));
    assert(ascii_lower(a[1]) == ascii_lower(b[1]));
    assert(a =~= b);
}

/// Two entries whose names agree up to ASCII case are the same entry.
proof fn lemma_names_distinct(i: int, j: int)
    requires
        0 <= i < 57,
        0 <= j < 57,
        eq_ignore_ascii_case(STATES@[i].0@, STATES@[j].0@),
    ensures
        i == j,
{
    lemma_table_shape();
    lemma_names_resolve();
    assert(entry_shape(i));
    assert(entry_shape(j));
    let ni = STATES@[i].0@;
    let nj = STATES@[j].0@;
    lemma_trim_unchanged(ni);
    lemma_trim_unchanged(nj);
    lemma_eq_ignore_symmetric(ni, nj);
    assert(state_index_from(ni, 0) == Some(i));
    assert(state_index_from(nj, 0) == Some(j));
    lemma_index_is_first(ni, 0);
    lemma_index_is_first(nj, 0);
    assert(state_entry_matches(j, ni));
    assert(state_entry_matches(i, nj));
}

/// A value's code is the code of any entry that names it: `state_code` gives `Some(c)`
/// exactly when some entry's name or code equals the trimmed value up to ASCII case,
/// and then `c` is that entry's code; it gives `None` when no entry names the value.
pub proof fn law_state_code_of_entry(v: Seq<char>)
    ensures
        (state_code_of(v) is Some) <==> exists|i: int| 0 <= i < 57 && #[trigger] state_entry_matches(i, v),
        forall|i: int|
            0 <= i < 57 && #[trigger] state_entry_matches(i, v) ==> state_code_of(v) == Some(STATES@[i].1@),
{
    lemma_index_is_first(v, 0);
    lemma_table_shape();
    assert forall|i: int| 0 <= i < 57 && #[trigger] state_entry_matches(i, v) implies state_code_of(v) == Some(
        STATES@[i].1@,
    ) by {
        let j = state_index_from(v, 0)->Some_0;
        assert(entry_shape(i));
        assert(entry_shape(j));
        let t = trim(v);
        if eq_ignore_ascii_case(STATES@[i].0@, t) {
            if eq_ignore_ascii_case(STATES@[j].0@, t) {
                lemma_eq_ignore_symmetric(STATES@[i].0@, t);
                lemma_eq_ignore_transitive(STATES@[j].0@, t, STATES@[i].0@);
                lemma_names_distinct(j, i);
            }
        } else {
            if eq_ignore_ascii_case(STATES@[j].1@, t) {
                lemma_eq_ignore_symmetric(STATES@[i].1@, t);
                lemma_eq_ignore_transitive(STATES@[j].1@, t, STATES@[i].1@);
                lemma_codes_equal(STATES@[j].1@, STATES@[i].1@);
            }
        }
    }
}

/// Every name and every code of the table reads back as that entry's code, and so
/// lies in the `all` scope.
pub proof fn law_table_reads_back(i: int)
    requires
        0 <= i < 57,
    ensures
        state_code_of(STATES@[i].0@) == Some(STATES@[i].1@),
        state_code_of(STATES@[i].1@) == Some(STATES@[i].1@),
        scope_includes(Scope::All, STATES@[i].0@),
        scope_includes(Scope::All, STATES@[i].1@),
{
    lemma_table_shape();
    assert(entry_shape(i));
    let n = STATES@[i].0@;
    let c = STATES@[i].1@;
    lemma_trim_unchanged(n);
    assert(!is_ws(c[0]) && !is_ws(c.last()));
    lemma_trim_unchanged(c);
    assert(eq_ignore_ascii_case(n, trim(n)));
    assert(eq_ignore_ascii_case(c, trim(c)));
    assert(state_entry_matches(i, n));
    assert(state_entry_matches(i, c));
    law_state_code_of_entry(n);
    law_state_code_of_entry(c);
}

/// Reading a code back gives the same code: normalising a state twice is
/// normalising it once.
pub proof fn law_state_code_idempotent(v: Seq<char>)
    ensures
        match state_code_of(v) {
            Some(c) => state_code_of(c) == Some(c),
            None => true,
        },
{
    match state_index_from(v, 0) {
        Some(j) => {
            lemma_index_is_first(v, 0);
            law_table_reads_back(j);
        },
        None => {},
    }
}

/// Scope membership in the table's words: a state belongs to a scope when it has a
/// code and the scope is `all`, or the code is AK, DE, MT, NH or OR, or the scope is
/// `tax-free-nv` and the code is NV.
pub proof fn law_scope_by_code(scope: Scope, v: Seq<char>)
    ensures
        scope_includes(scope, v) == match state_code_of(v) {
            None => false,
            Some(c) => scope == Scope::All || c == "AK"@ || c == "DE"@ || c == "MT"@ || c == "NH"@
                || c == "OR"@ || (scope == Scope::TaxFreeNv && c == "NV"@),
        },
{
    match state_code_of(v) {
        Some(c) => {
            assert(TAX_FREE_STATES@[0]@ == "AK"@);
            assert(TAX_FREE_STATES@[1]@ == "DE"@);
            assert(TAX_FREE_STATES@[2]@ == "MT"@);
            assert(TAX_FREE_STATES@[3]@ == "NH"@);
            assert(TAX_FREE_STATES@[4]@ == "OR"@);
            assert(is_tax_free_code(c) == (c == "AK"@ || c == "DE"@ || c == "MT"@ || c == "NH"@
                || c == "OR"@));
        },
        None => {},
    }
}

} // verus!
