use vstd::prelude::*;
use vstd::string::StringExecFns;

use crate::error::InvalidNameIndexError;
use crate::header::AssetHeader;
use crate::records::{NameReference, ObjectImport};
use crate::serialization::views;

verus! {

/// What lowercasing a string gives.
pub uninterp spec fn lower_of(s: Seq<char>) -> Seq<char>;

/// Relies on str::to_lowercase: the lowercase form of a string depends on its
/// characters alone.
#[verifier::external_body]
fn lowercase(s: &str) -> (r: String)
    ensures
        r@ == lower_of(s@),
{
    s.to_lowercase()
}

/// The decimal digit for `d`.
pub open spec fn digit_char(d: nat) -> char {
    if d == 0 { '0' }
    else if d == 1 { '1' }
    else if d == 2 { '2' }
    else if d == 3 { '3' }
    else if d == 4 { '4' }
    else if d == 5 { '5' }
    else if d == 6 { '6' }
    else if d == 7 { '7' }
    else if d == 8 { '8' }
    else { '9' }
}

/// The decimal representation of `n`, without leading zeros.
pub open spec fn decimal(n: nat) -> Seq<char>
    decreases n,
{
    if n < 10 {
        seq![digit_char(n)]
    } else {
        decimal(n / 10).push(digit_char(n % 10))
    }
}

/// Relies on u32::to_string: the standard formatting of an unsigned integer
/// is its decimal representation.
#[verifier::external_body]
fn decimal_string(n: u32) -> (r: String)
    ensures
        r@ == decimal(n as nat),
{
    n.to_string()
}

/// The name, an underscore, then `n` in decimal.
fn with_suffix(name: &String, n: u32) -> (r: String)
    ensures
        r@ == name@ + seq!['_'] + decimal(n as nat),
{
    let digits = decimal_string(n);
    let mut r = name.clone();
    r.append("_");
    r.append(digits.as_str());
    proof {
        reveal_strlit("_");
        assert("_"@ =~= seq!['_']);
    }
    r
}

/// A stored name matches a query when they are equal, or equal once lowercased.
pub open spec fn name_match(query: Seq<char>, name: Seq<char>) -> bool {
    query == name || lower_of(query) == lower_of(name)
}

/// The first index of `names` that matches `query`, if any.
pub open spec fn is_first_match(names: Seq<Seq<char>>, query: Seq<char>, i: int) -> bool {
    &&& 0 <= i < names.len()
    &&& name_match(query, names[i])
    &&& forall|j: int| 0 <= j < i ==> !name_match(query, #[trigger] names[j])
}

/// What looking `query` up in `names` gives: the first match, without a number.
pub open spec fn find_spec(names: Seq<Seq<char>>, query: Seq<char>) -> Option<NameReference> {
    if exists|i: int| is_first_match(names, query, i) {
        Some(NameReference { index: (choose|i: int| is_first_match(names, query, i)) as u32, number: None })
    } else {
        None
    }
}

/// The text a name reference stands for: the stored name, with `_` and the
/// number less one appended when there is a number.
pub open spec fn resolved(name: Seq<char>, number: Option<u32>) -> Seq<char> {
    match number {
        None => name,
        Some(k) => name + seq!['_'] + decimal((k - 1) as nat),
    }
}

/// Whether a name reference can be resolved against `names`.
pub open spec fn resolvable(names: Seq<Seq<char>>, r: NameReference) -> bool {
    r.index < names.len() && r.number != Some(0u32)
}

/// Whether a query matches a stored name, given both and their lowercase forms.
pub fn name_matches(query: &String, query_lower: &String, name: &String, name_lower: &String) -> (r: bool)
    ensures
        r == (query@ == name@ || query_lower@ == name_lower@),
{
    *query == *name || *query_lower == *name_lower
}

impl AssetHeader {
    /// Looks a name up in the name table, ignoring case; the first match wins.
    /// Numeric suffixes are not matched.
    pub fn find_name(&self, find_name: &str) -> (r: Option<NameReference>)
        requires
            self.names@.len() <= u32::MAX,
        ensures
            r == find_spec(views(self.names@), find_name@),
            match r {
                Some(n) => n.number is None && is_first_match(views(self.names@), find_name@, n.index as int),
                None => forall|j: int|
                    0 <= j < self.names@.len() ==> !name_match(find_name@, #[trigger] views(self.names@)[j]),
            },
    {
        let query = String::from_str(find_name);
        let query_lower = lowercase(find_name);
        let mut i: usize = 0;
        while i < self.names.len()
            invariant
                i <= self.names@.len(),
                self.names@.len() <= u32::MAX,
                query@ == find_name@,
                query_lower@ == lower_of(find_name@),
                forall|j: int| 0 <= j < i ==> !name_match(find_name@, #[trigger] views(self.names@)[j]),
            decreases self.names@.len() - i,
        {
            let name = &self.names[i];
            let name_lower = lowercase(name.as_str());
            if name_matches(&query, &query_lower, name, &name_lower) {
                proof {
                    let names = views(self.names@);
                    assert(is_first_match(names, find_name@, i as int));
                    let k = choose|k: int| is_first_match(names, find_name@, k);
                    if k < i {
                        assert(!name_match(find_name@, names[k]));
                    } else if k > i {
                        assert(!name_match(find_name@, names[i as int]));
                    }
                }
                return Some(NameReference { index: i as u32, number: None });
            }
            i = i + 1;
        }
        None
    }

    /// The text that a name reference stands for.
    pub fn resolve_name(&self, name_reference: &NameReference) -> (r: Result<String, InvalidNameIndexError>)
        requires
            name_reference.number != Some(0u32),
        ensures
            (name_reference.index < self.names@.len()) == r is Ok,
            r matches Ok(s) ==> s@ == resolved(
                self.names@[name_reference.index as int]@,
                name_reference.number,
            ),
            r matches Err(e) ==> e == InvalidNameIndexError(name_reference.index),
    {
        let index = name_reference.index as usize;
        if index < self.names.len() {
            match name_reference.number {
                Some(number) => Ok(with_suffix(&self.names[index], number - 1)),
                None => Ok(self.names[index].clone()),
            }
        } else {
            Err(InvalidNameIndexError(name_reference.index))
        }
    }
}

/// The class name every package import carries.
pub open spec fn package_class() -> Seq<char> {
    "Package"@
}

/// Whether an import is a package import: its class name resolves to exactly
/// `Package`, and it is not the self-import of the core package, when that
/// name is known.
pub open spec fn is_package_import(names: Seq<Seq<char>>, imp: ObjectImport, core: Option<NameReference>) -> bool {
    &&& resolvable(names, imp.class_name)
    &&& resolved(names[imp.class_name.index as int], imp.class_name.number) == package_class()
    &&& match core {
        Some(c) => imp.object_name != c,
        None => true,
    }
}

/// What one import contributes to the package imports: its resolved object
/// name, or nothing when it is no package import or its name cannot be resolved.
pub open spec fn import_entry(names: Seq<Seq<char>>, imp: ObjectImport, core: Option<NameReference>) -> Seq<Seq<char>> {
    if is_package_import(names, imp, core) && resolvable(names, imp.object_name) {
        seq![resolved(names[imp.object_name.index as int], imp.object_name.number)]
    } else {
        seq![]
    }
}

/// The package imports among `imports`, in table order.
pub open spec fn package_import_names(
    names: Seq<Seq<char>>,
    imports: Seq<ObjectImport>,
    core: Option<NameReference>,
) -> Seq<Seq<char>>
    decreases imports.len(),
{
    if imports.len() == 0 {
        seq![]
    } else {
        import_entry(names, imports[0], core) + package_import_names(names, imports.drop_first(), core)
    }
}

impl AssetHeader {
    /// The names of the packages this asset imports.
    pub open spec fn package_imports(&self) -> Seq<Seq<char>> {
        let names = views(self.names@);
        package_import_names(names, self.imports@, find_spec(names, "/Script/CoreUObject"@))
    }

    /// The names of the packages this asset imports, in import-table order.
    pub fn package_import_iter(&self) -> (r: Vec<String>)
        requires
            self.names@.len() <= u32::MAX,
        ensures
            views(r@) == self.package_imports(),
    {
        let mut it = ImportIterator::new(self);
        let mut out: Vec<String> = Vec::new();
        proof {
            assert(views(out@) + it.remaining() =~= self.package_imports());
        }
        loop
            invariant
                it.header() == self,
                it.wf(),
                views(out@) + it.remaining() == self.package_imports(),
            decreases it.remaining().len(),
        {
            match it.next() {
                Some(s) => {
                    let ghost before = out@;
                    out.push(s);
                    proof {
                        assert(views(out@) =~= views(before).push(s@));
                    }
                },
                None => {
                    proof {
                        assert(views(out@) + it.remaining() =~= views(out@));
                    }
                    return out;
                },
            }
        }
    }
}

/// Walks the imports of a header, handing out the names of imported packages.
pub struct ImportIterator<'a> {
    package: &'a AssetHeader,
    next_index: usize,
    core_uobject_package_name_reference: Option<NameReference>,
}

impl<'a> ImportIterator<'a> {
    pub closed spec fn header(&self) -> &'a AssetHeader {
        self.package
    }

    /// What the walk still has to hand out, in order.
    pub closed spec fn remaining(&self) -> Seq<Seq<char>> {
        package_import_names(
            views(self.package.names@),
            self.package.imports@.subrange(self.next_index as int, self.package.imports@.len() as int),
            self.core_uobject_package_name_reference,
        )
    }

    pub closed spec fn wf(&self) -> bool {
        &&& self.next_index <= self.package.imports@.len()
        &&& self.package.names@.len() <= u32::MAX
        &&& self.core_uobject_package_name_reference == find_spec(
            views(self.package.names@),
            "/Script/CoreUObject"@,
        )
    }

    pub fn new(package: &'a AssetHeader) -> (r: ImportIterator<'a>)
        requires
            package.names@.len() <= u32::MAX,
        ensures
            r.wf(),
            r.header() == package,
            r.remaining() == package.package_imports(),
    {
        let core_uobject_package_name_reference = package.find_name("/Script/CoreUObject");
        let r = ImportIterator { package, next_index: 0, core_uobject_package_name_reference };
        proof {
            assert(package.imports@.subrange(0, package.imports@.len() as int) =~= package.imports@);
        }
        r
    }

    /// The next package import, if any is left.
    pub fn next(&mut self) -> (r: Option<String>)
        requires
            old(self).wf(),
        ensures
            final(self).wf(),
            final(self).header() == old(self).header(),
            r is None ==> old(self).remaining().len() == 0 && final(self).remaining().len() == 0,
            r matches Some(x) ==> old(self).remaining().len() > 0,
            r matches Some(x) ==> x@ == old(self).remaining()[0],
            r matches Some(x) ==> final(self).remaining() == old(self).remaining().drop_first(),
    {
        let ghost rem0 = self.remaining();
        let core = self.core_uobject_package_name_reference;
        let package_class_name = String::from_str("Package");
        let len = self.package.imports.len();
        while self.next_index < len
            invariant
                self.package == old(self).package,
                self.core_uobject_package_name_reference == core,
                package_class_name@ == package_class(),
                len == self.package.imports@.len(),
                self.next_index <= len,
                self.wf(),
                rem0 == old(self).remaining(),
                self.remaining() == rem0,
            decreases len - self.next_index,
        {
            let imp = self.package.imports[self.next_index];
            let ghost names = views(self.package.names@);
            let ghost rest = self.package.imports@.subrange(self.next_index as int, len as int);
            proof {
                assert(rest[0] == imp);
                assert(rest.drop_first() =~= self.package.imports@.subrange(self.next_index + 1, len as int));
                assert(package_import_names(names, rest, core) == import_entry(names, imp, core)
                    + package_import_names(names, rest.drop_first(), core));
            }
            self.next_index = self.next_index + 1;
            let excluded = match core {
                Some(c) => imp.object_name == c,
                None => false,
            };
            let class_number_valid = match imp.class_name.number {
                Some(n) => n != 0,
                None => true,
            };
            let object_number_valid = match imp.object_name.number {
                Some(n) => n != 0,
                None => true,
            };
            if !excluded && class_number_valid && object_number_valid {
                if let Ok(class) = self.package.resolve_name(&imp.class_name) {
                    proof {
                        assert(names[imp.class_name.index as int] == self.package.names@[imp.class_name.index as int]@);
                    }
                    if class == package_class_name {
                        match self.package.resolve_name(&imp.object_name) {
                            Ok(s) => {
                                proof {
                                    assert(names[imp.object_name.index as int]
                                        == self.package.names@[imp.object_name.index as int]@);
                                    assert(import_entry(names, imp, core) == seq![s@]);
                                    let tail = package_import_names(names, rest.drop_first(), core);
                                    assert((seq![s@] + tail).drop_first() =~= tail);
                                    assert((seq![s@] + tail)[0] == s@);
                                    assert(rem0 == seq![s@] + tail);
                                }
                                return Some(s);
                            },
                            Err(_) => {},
                        }
                    }
                }
            }
            proof {
                assert(import_entry(names, imp, core) == Seq::<Seq<char>>::empty());
                assert(Seq::<Seq<char>>::empty() + package_import_names(names, rest.drop_first(), core)
                    =~= package_import_names(names, rest.drop_first(), core));
            }
        }
        proof {
            assert(self.package.imports@.subrange(len as int, len as int) =~= Seq::<ObjectImport>::empty());
        }
        None
    }
}

} // verus!
