use vstd::prelude::*;
use vstd::string::StrSliceExecFns;

use crate::serialization::views;

verus! {

/// A check that can be run over decoded assets.
#[derive(Clone, Copy, Debug, PartialEq, Eq, Structural)]
pub enum Validation {
    /// Every asset that an asset refers to exists.
    AssetReferencesExist,
    /// Every asset records the engine version it was saved with.
    HasEngineVersion,
}

/// Which checks to run: all of them, or those listed.
#[derive(Debug)]
pub enum ValidationMode {
    All,
    Individual(Vec<Validation>),
}

/// Why a list of checks was refused; each variant holds the offending entry.
#[derive(Debug)]
pub enum ValidationModeError {
    /// No check has this name.
    Unrecognized(String),
    /// The check exists but cannot be run yet.
    Unimplemented(String),
}

impl ValidationModeError {
    pub open spec fn entry(&self) -> Seq<char> {
        match self {
            ValidationModeError::Unrecognized(s) => s@,
            ValidationModeError::Unimplemented(s) => s@,
        }
    }
}

impl ValidationMode {
    pub open spec fn spec_includes(&self, validation: Validation) -> bool {
        match self {
            ValidationMode::All => true,
            ValidationMode::Individual(modes) => modes@.contains(validation),
        }
    }

    /// Whether `validation` is among the checks to run.
    pub fn includes(&self, validation: &Validation) -> (r: bool)
        ensures
            r == self.spec_includes(*validation),
    {
        match self {
            ValidationMode::All => true,
            ValidationMode::Individual(modes) => {
                let mut i: usize = 0;
                while i < modes.len()
                    invariant
                        self.spec_includes(*validation) == modes@.contains(*validation),
                        i <= modes@.len(),
                        forall|j: int| 0 <= j < i ==> modes@[j] != *validation,
                    decreases modes@.len() - i,
                {
                    if modes[i] == *validation {
                        assert(modes@[i as int] == *validation);
                        assert(modes@.contains(*validation));
                        return true;
                    }
                    i = i + 1;
                }
                assert(!modes@.contains(*validation));
                false
            },
        }
    }
}

/// The pieces of `s` between commas, in order; there is always at least one.
pub open spec fn split_commas(s: Seq<char>) -> Seq<Seq<char>>
    decreases s.len(),
{
    if s.len() == 0 {
        seq![seq![]]
    } else {
        let r = split_commas(s.drop_last());
        if s.last() == ',' {
            r.push(seq![])
        } else {
            r.update(r.len() - 1, r.last().push(s.last()))
        }
    }
}

proof fn lemma_split_nonempty(s: Seq<char>)
    ensures
        split_commas(s).len() >= 1,
    decreases s.len(),
{
    if s.len() > 0 {
        lemma_split_nonempty(s.drop_last());
    }
}

/// The checks that a list of names selects, or the first name that selects none.
pub open spec fn modes_of(entries: Seq<Seq<char>>) -> Result<Seq<Validation>, Seq<char>>
    decreases entries.len(),
{
    if entries.len() == 0 {
        Ok(seq![])
    } else {
        match modes_of(entries.drop_last()) {
            Err(e) => Err(e),
            Ok(ms) => if entries.last() == "HasEngineVersion"@ {
                Ok(ms.push(Validation::HasEngineVersion))
            } else {
                Err(entries.last())
            },
        }
    }
}

proof fn lemma_modes_error_sticks(entries: Seq<Seq<char>>, k: int)
    requires
        0 <= k <= entries.len(),
        modes_of(entries.subrange(0, k)) is Err,
    ensures
        modes_of(entries) == modes_of(entries.subrange(0, k)),
    decreases entries.len() - k,
{
    if k < entries.len() {
        let longer = entries.subrange(0, k + 1);
        assert(longer.drop_last() =~= entries.subrange(0, k));
        lemma_modes_error_sticks(entries, k + 1);
    } else {
        assert(entries.subrange(0, k) =~= entries);
    }
}

/// Splits `src` at its commas.
fn split_at_commas(src: &str) -> (r: Vec<String>)
    ensures
        views(r@) == split_commas(src@),
{
    let n = src.unicode_len();
    let mut pieces: Vec<String> = Vec::new();
    let mut start: usize = 0;
    let mut i: usize = 0;
    proof {
        assert(src@.subrange(0, 0) =~= Seq::<char>::empty());
        assert(views(pieces@).push(src@.subrange(0, 0)) =~= split_commas(src@.subrange(0, 0)));
    }
    while i < n
        invariant
            n == src@.len(),
            start <= i <= n,
            views(pieces@).push(src@.subrange(start as int, i as int)) == split_commas(src@.subrange(0, i as int)),
        decreases n - i,
    {
        let c = src.get_char(i);
        let ghost prefix = src@.subrange(0, i as int + 1);
        proof {
            assert(prefix.drop_last() =~= src@.subrange(0, i as int));
            assert(prefix.last() == c);
        }
        if c == ',' {
            let piece = String::from_str(src.substring_char(start, i));
            let ghost before = views(pieces@);
            pieces.push(piece);
            proof {
                assert(views(pieces@) =~= before.push(src@.subrange(start as int, i as int)));
                assert(src@.subrange(i as int + 1, i as int + 1) =~= Seq::<char>::empty());
            }
            start = i + 1;
        } else {
            proof {
                let r = split_commas(prefix.drop_last());
                assert(src@.subrange(start as int, i as int + 1) =~= src@.subrange(start as int, i as int).push(c));
                assert(views(pieces@).push(src@.subrange(start as int, i as int + 1)) =~= r.update(
                    r.len() - 1,
                    r.last().push(c),
                ));
            }
        }
        i = i + 1;
    }
    let last = String::from_str(src.substring_char(start, n));
    let ghost before = views(pieces@);
    pieces.push(last);
    proof {
        assert(views(pieces@) =~= before.push(src@.subrange(start as int, n as int)));
        assert(src@.subrange(0, n as int) =~= src@);
    }
    pieces
}

/// Reads a list of checks: `All`, or names separated by commas.
pub fn parse_validation_mode(src: &str) -> (r: Result<ValidationMode, ValidationModeError>)
    ensures
        src@ == "All"@ ==> r matches Ok(ValidationMode::All),
        src@ != "All"@ ==> match modes_of(split_commas(src@)) {
            Ok(ms) => r matches Ok(ValidationMode::Individual(v)) && v@ == ms,
            Err(entry) => r matches Err(e) && e.entry() == entry
                && (e is Unimplemented <==> entry == "AssetReferencesExist"@),
        },
{
    let given = String::from_str(src);
    let all = String::from_str("All");
    if given == all {
        return Ok(ValidationMode::All);
    }
    let pieces = split_at_commas(src);
    let ghost entries = views(pieces@);
    let has_engine_version = String::from_str("HasEngineVersion");
    let asset_references_exist = String::from_str("AssetReferencesExist");
    let mut modes: Vec<Validation> = Vec::new();
    let mut k: usize = 0;
    proof {
        assert(entries.subrange(0, 0) =~= Seq::<Seq<char>>::empty());
    }
    while k < pieces.len()
        invariant
            entries == views(pieces@),
            entries == split_commas(src@),
            src@ != "All"@,
            k <= pieces@.len(),
            has_engine_version@ == "HasEngineVersion"@,
            asset_references_exist@ == "AssetReferencesExist"@,
            modes_of(entries.subrange(0, k as int)) == Ok::<Seq<Validation>, Seq<char>>(modes@),
        decreases pieces@.len() - k,
    {
        let piece = &pieces[k];
        let ghost prefix = entries.subrange(0, k as int + 1);
        proof {
            assert(prefix.drop_last() =~= entries.subrange(0, k as int));
            assert(prefix.last() == piece@);
        }
        if *piece == has_engine_version {
            modes.push(Validation::HasEngineVersion);
        } else {
            proof {
                lemma_modes_error_sticks(entries, k as int + 1);
            }
            if *piece == asset_references_exist {
                return Err(ValidationModeError::Unimplemented(piece.clone()));
            }
            proof {
                reveal_strlit("AssetReferencesExist");
            }
            return Err(ValidationModeError::Unrecognized(piece.clone()));
        }
        k = k + 1;
    }
    proof {
        assert(entries.subrange(0, pieces@.len() as int) =~= entries);
    }
    Ok(ValidationMode::Individual(modes))
}

} // verus!
