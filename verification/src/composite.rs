use vstd::prelude::*;
use crate::param::ParameterBaseType;
use crate::types::{TypeSpecifierNonArray, TypeSpecifier, TypeSpecNAView, TypeSpecView,
    clone_type_spec_na};
use crate::value::{ConstBaseVal, BaseValView};

verus! {

broadcast use {vstd::std_specs::vec::group_vec_axioms, vstd::seq::group_seq_axioms};

/// A rectangular constant array: positive dimensions, an element
/// type, and a flat store of one value per cell, indexed
/// little-endian by cumulative products.
#[derive(Debug)]
pub struct ConstArray {
    pub ty: TypeSpecifierNonArray,
    pub dims: Vec<u32>,
    pub data: Vec<ConstVal>,
}

/// A constant record: an ordered list of named fields. Field names
/// are unique.
#[derive(Debug)]
pub struct ConstStruct {
    pub name: Option<String>,
    pub entries: Vec<(String, ConstVal)>,
}

/// Any constant value: a basic shaped value, an array, or a record.
#[derive(Debug)]
pub enum ConstVal {
    Base(ConstBaseVal),
    Array(ConstArray),
    Struct(ConstStruct),
}

pub ghost struct ArrayView {
    pub ty: TypeSpecNAView,
    pub dims: Seq<u32>,
    pub data: Seq<ValView>,
}

pub ghost struct StructView {
    pub name: Option<Seq<char>>,
    pub entries: Seq<(Seq<char>, ValView)>,
}

pub ghost enum ValView {
    Base(BaseValView),
    Array(ArrayView),
    Struct(StructView),
}

pub open spec fn spec_view_val(v: ConstVal) -> ValView
    decreases v,
{
    match v {
        ConstVal::Base(b) => ValView::Base(b@),
        ConstVal::Array(a) => ValView::Array(
            ArrayView { ty: a.ty@, dims: a.dims@, data: spec_view_val_list(a.data@) },
        ),
        ConstVal::Struct(s) => ValView::Struct(
            StructView {
                name: match s.name {
                    Some(n) => Some(n@),
                    None => None,
                },
                entries: spec_view_entry_list(s.entries@),
            },
        ),
    }
}

pub open spec fn spec_view_val_list(s: Seq<ConstVal>) -> Seq<ValView>
    decreases s,
{
    if s.len() == 0 {
        Seq::empty()
    } else {
        seq![spec_view_val(s.first())] + spec_view_val_list(s.drop_first())
    }
}

pub open spec fn spec_view_entry_list(s: Seq<(String, ConstVal)>) -> Seq<(Seq<char>, ValView)>
    decreases s,
{
    if s.len() == 0 {
        Seq::empty()
    } else {
        seq![(s.first().0@, spec_view_val(s.first().1))] + spec_view_entry_list(s.drop_first())
    }
}

pub proof fn lemma_view_val_list(s: Seq<ConstVal>)
    ensures
        spec_view_val_list(s).len() == s.len(),
        forall|i: int| 0 <= i < s.len() ==> spec_view_val_list(s)[i] == spec_view_val(s[i]),
    decreases s,
{
    if s.len() > 0 {
        lemma_view_val_list(s.drop_first());
    }
}

pub proof fn lemma_view_entry_list(s: Seq<(String, ConstVal)>)
    ensures
        spec_view_entry_list(s).len() == s.len(),
        forall|i: int|
            0 <= i < s.len() ==> spec_view_entry_list(s)[i] == ((s[i].0@, spec_view_val(s[i].1))),
    decreases s,
{
    if s.len() > 0 {
        lemma_view_entry_list(s.drop_first());
    }
}

impl View for ConstVal {
    type V = ValView;

    open spec fn view(&self) -> ValView {
        spec_view_val(*self)
    }
}

impl View for ConstArray {
    type V = ArrayView;

    open spec fn view(&self) -> ArrayView {
        ArrayView { ty: self.ty@, dims: self.dims@, data: spec_view_val_list(self.data@) }
    }
}

impl View for ConstStruct {
    type V = StructView;

    open spec fn view(&self) -> StructView {
        StructView {
            name: match &self.name {
                Some(n) => Some(n@),
                None => None,
            },
            entries: spec_view_entry_list(self.entries@),
        }
    }
}

/// The product of a dimension list; the cell count of the array.
pub open spec fn spec_dims_product(dims: Seq<u32>) -> int
    decreases dims,
{
    if dims.len() == 0 {
        1
    } else {
        dims.first() * spec_dims_product(dims.drop_first())
    }
}

/// The flat cell index of a multi-index: little-endian mixed radix,
/// the first index varying fastest.
pub open spec fn spec_flat_index(dims: Seq<u32>, idx: Seq<u32>) -> int
    decreases dims,
{
    if dims.len() == 0 {
        0
    } else {
        idx.first() + dims.first() * spec_flat_index(dims.drop_first(), idx.drop_first())
    }
}

pub open spec fn spec_vals_wf(s: Seq<ValView>) -> bool
    decreases s,
{
    s.len() == 0 || (s.first().wf() && spec_vals_wf(s.drop_first()))
}

pub open spec fn spec_entries_wf(s: Seq<(Seq<char>, ValView)>) -> bool
    decreases s,
{
    s.len() == 0 || (s.first().1.wf() && spec_entries_wf(s.drop_first()))
}

/// No two fields of a record share a name.
pub open spec fn spec_names_unique(s: Seq<(Seq<char>, ValView)>) -> bool {
    forall|i: int, j: int| 0 <= i < j < s.len() ==> s[i].0 != s[j].0
}

impl ArrayView {
    /// Non-empty positive dimensions, and exactly one stored value
    /// per cell, each itself well formed.
    pub open spec fn wf(self) -> bool {
        &&& self.dims.len() > 0
        &&& forall|i: int| 0 <= i < self.dims.len() ==> self.dims[i] > 0
        &&& self.data.len() == spec_dims_product(self.dims)
        &&& spec_vals_wf(self.data)
    }

    /// The stored value a multi-index denotes: absent where the
    /// index arity differs from the dimension count or any component
    /// is out of range.
    pub open spec fn spec_get(self, idx: Seq<u32>) -> Option<ValView> {
        if idx.len() != self.dims.len() {
            None
        } else if exists|i: int| 0 <= i < idx.len() && idx[i] >= self.dims[i] {
            None
        } else {
            Some(self.data[spec_flat_index(self.dims, idx)])
        }
    }
}

impl StructView {
    pub open spec fn wf(self) -> bool {
        spec_entries_wf(self.entries) && spec_names_unique(self.entries)
    }

    /// The value of the first field of the given name.
    pub open spec fn spec_lookup(self, name: Seq<char>) -> Option<ValView> {
        spec_entries_lookup(self.entries, name)
    }
}

pub open spec fn spec_entries_lookup(s: Seq<(Seq<char>, ValView)>, name: Seq<char>) -> Option<
    ValView,
>
    decreases s,
{
    if s.len() == 0 {
        None
    } else if s.first().0 == name {
        Some(s.first().1)
    } else {
        spec_entries_lookup(s.drop_first(), name)
    }
}

impl ValView {
    pub open spec fn wf(self) -> bool
        decreases self,
    {
        match self {
            ValView::Base(b) => b.wf(),
            ValView::Array(a) => {
                &&& a.dims.len() > 0
                &&& forall|i: int| 0 <= i < a.dims.len() ==> a.dims[i] > 0
                &&& a.data.len() == spec_dims_product(a.dims)
                &&& spec_vals_wf(a.data)
            },
            ValView::Struct(s) => spec_entries_wf(s.entries) && spec_names_unique(s.entries),
        }
    }
}

/// Every member of a well formed value list is well formed.
pub proof fn lemma_vals_wf_pointwise(s: Seq<ValView>)
    requires
        spec_vals_wf(s),
    ensures
        forall|i: int| 0 <= i < s.len() ==> s[i].wf(),
    decreases s,
{
    if s.len() > 0 {
        lemma_vals_wf_pointwise(s.drop_first());
        assert forall|i: int| 0 <= i < s.len() implies s[i].wf() by {
            if i > 0 {
                assert(s[i] == s.drop_first()[i - 1]);
            }
        }
    }
}

/// A positive dimension list has a positive product.
pub proof fn lemma_dims_product_pos(dims: Seq<u32>)
    requires
        forall|i: int| 0 <= i < dims.len() ==> dims[i] > 0,
    ensures
        spec_dims_product(dims) >= 1,
    decreases dims,
{
    if dims.len() > 0 {
        assert(forall|i: int|
            0 <= i < dims.drop_first().len() ==> dims.drop_first()[i] == dims[i + 1]);
        lemma_dims_product_pos(dims.drop_first());
        assert(dims.first() >= 1);
        assert(dims.first() * spec_dims_product(dims.drop_first()) >= 1) by (nonlinear_arith)
            requires
                dims.first() >= 1,
                spec_dims_product(dims.drop_first()) >= 1,
        ;
    }
}

/// An in-range multi-index denotes a cell inside the store.
pub proof fn lemma_flat_index_bound(dims: Seq<u32>, idx: Seq<u32>)
    requires
        idx.len() == dims.len(),
        forall|i: int| 0 <= i < dims.len() ==> dims[i] > 0,
        forall|i: int| 0 <= i < idx.len() ==> idx[i] < dims[i],
    ensures
        0 <= spec_flat_index(dims, idx),
        spec_flat_index(dims, idx) < spec_dims_product(dims),
    decreases dims,
{
    if dims.len() == 0 {
    } else {
        let dt = dims.drop_first();
        let it = idx.drop_first();
        assert(forall|i: int| 0 <= i < dt.len() ==> dt[i] == dims[i + 1]);
        assert(forall|i: int| 0 <= i < it.len() ==> it[i] == idx[i + 1]);
        lemma_flat_index_bound(dt, it);
        let f = spec_flat_index(dt, it);
        let p = spec_dims_product(dt);
        let d0 = dims.first() as int;
        let x0 = idx.first() as int;
        assert(x0 + d0 * f < d0 * p) by (nonlinear_arith)
            requires
                0 <= f,
                f < p,
                0 <= x0,
                x0 < d0,
                1 <= d0,
        ;
        assert(0 <= x0 + d0 * f) by (nonlinear_arith)
            requires
                0 <= f,
                0 <= x0,
                1 <= d0,
        ;
    }
}

/// Extending the processed prefix by one dimension multiplies the
/// cumulative product and adds one term to the flat index.
pub proof fn lemma_flat_index_push(dims: Seq<u32>, idx: Seq<u32>, d: u32, x: u32)
    requires
        idx.len() == dims.len(),
    ensures
        spec_dims_product(dims.push(d)) == spec_dims_product(dims) * d,
        spec_flat_index(dims.push(d), idx.push(x)) == spec_flat_index(dims, idx)
            + spec_dims_product(dims) * x,
    decreases dims,
{
    if dims.len() == 0 {
        assert(dims.len() == 0);
        assert(spec_dims_product(dims) == 1);
        assert(spec_flat_index(dims, idx) == 0);
        assert(dims.push(d).drop_first() =~= Seq::<u32>::empty());
        assert(idx.push(x).drop_first() =~= Seq::<u32>::empty());
        assert(dims.push(d).first() == d);
        assert(idx.push(x).first() == x);
        assert(spec_flat_index(Seq::<u32>::empty(), Seq::<u32>::empty()) == 0);
        assert(spec_dims_product(Seq::<u32>::empty()) == 1);
        assert(spec_flat_index(dims.push(d), idx.push(x)) == x + d * 0);
        assert(spec_dims_product(dims.push(d)) == spec_dims_product(dims) * d) by {
            reveal_with_fuel(spec_dims_product, 3);
            assert(dims.push(d).drop_first() =~= Seq::<u32>::empty());
            assert(dims.push(d).first() == d);
        }
        assert(spec_flat_index(dims.push(d), idx.push(x)) == spec_flat_index(dims, idx)
            + spec_dims_product(dims) * x);
    } else {
        let dt = dims.drop_first();
        let it = idx.drop_first();
        assert(dims.push(d).drop_first() =~= dt.push(d));
        assert(idx.push(x).drop_first() =~= it.push(x));
        assert(dims.push(d).first() == dims.first());
        assert(idx.push(x).first() == idx.first());
        lemma_flat_index_push(dt, it, d, x);
        let d0 = dims.first() as int;
        let pt = spec_dims_product(dt);
        let ft = spec_flat_index(dt, it);
        assert(spec_dims_product(dims.push(d)) == d0 * (pt * d));
        assert(d0 * (pt * d) == (d0 * pt) * d) by (nonlinear_arith);
        assert(spec_flat_index(dims.push(d), idx.push(x)) == idx.first() + d0 * (ft + pt * (
        x as int)));
        assert(d0 * (ft + pt * (x as int)) == d0 * ft + (d0 * pt) * (x as int))
            by (nonlinear_arith);
        assert(spec_dims_product(dims) == d0 * pt);
        assert(spec_flat_index(dims, idx) == idx.first() + d0 * ft);
        assert(spec_dims_product(dims.push(d)) == spec_dims_product(dims) * d);
        assert(spec_flat_index(dims.push(d), idx.push(x)) == spec_flat_index(dims, idx)
            + spec_dims_product(dims) * x);
    }
}

/// The product of a prefix divides into the whole product through
/// the rest.
pub proof fn lemma_dims_product_take(dims: Seq<u32>, n: int)
    requires
        0 <= n <= dims.len(),
    ensures
        spec_dims_product(dims) == spec_dims_product(dims.take(n)) * spec_dims_product(
            dims.skip(n),
        ),
    decreases dims.len() - n,
{
    if n == dims.len() {
        assert(dims.take(n) =~= dims);
        assert(dims.skip(n) =~= Seq::<u32>::empty());
        assert(spec_dims_product(dims) * 1 == spec_dims_product(dims));
    } else {
        lemma_dims_product_take(dims, n + 1);
        assert(dims.take(n + 1) =~= dims.take(n).push(dims[n]));
        lemma_flat_index_push(dims.take(n), dims.take(n), dims[n], dims[n]);
        let a = spec_dims_product(dims.take(n));
        let d = dims[n] as int;
        let rest = spec_dims_product(dims.skip(n + 1));
        assert(dims.skip(n).drop_first() =~= dims.skip(n + 1));
        assert(spec_dims_product(dims.skip(n)) == d * rest);
        assert((a * d) * rest == a * (d * rest)) by (nonlinear_arith);
    }
}

impl ConstArray {
    pub open spec fn spec_wf(&self) -> bool {
        self@.wf()
    }

    /// The surface type of the array: its element type with the
    /// explicit dimension sizes.
    pub fn type_specifier(&self) -> (r: TypeSpecifier)
        ensures
            r@.ty == self@.ty,
            r@.array_dims == Some(self@.dims),
    {
        let mut dims_copy: Vec<u32> = Vec::new();
        let mut i: usize = 0;
        while i < self.dims.len()
            invariant
                0 <= i <= self.dims@.len(),
                dims_copy@.len() == i as int,
                forall|j: int| 0 <= j < i as int ==> dims_copy@[j] == self.dims@[j],
            decreases self.dims@.len() - i,
        {
            dims_copy.push(self.dims[i]);
            i += 1;
        }
        proof {
            assert(dims_copy@ =~= self.dims@);
        }
        TypeSpecifier { ty: clone_type_spec_na(&self.ty), array_dims: Some(dims_copy) }
    }

    /// The stored value at a multi-index, or nothing where the index
    /// arity differs from the dimension count or a component is out
    /// of its range.
    pub fn get(&self, indices: &Vec<u32>) -> (r: Option<&ConstVal>)
        requires
            self@.wf(),
        ensures
            match r {
                Some(v) => self@.spec_get(indices@) == Some(v@),
                None => self@.spec_get(indices@) is None,
            },
    {
        if self.dims.len() != indices.len() {
            return None;
        }
        let ghost dims = self.dims@;
        let ghost idx = indices@;
        let mut index: usize = 0;
        let mut cumulative: usize = 1;
        let mut i: usize = 0;
        proof {
            assert(dims.take(0) =~= Seq::<u32>::empty());
            assert(idx.take(0) =~= Seq::<u32>::empty());
            lemma_dims_product_take(dims, 0);
            lemma_dims_product_pos(dims);
        }
        while i < self.dims.len()
            invariant
                self@.wf(),
                dims == self.dims@,
                idx == indices@,
                idx.len() == dims.len(),
                0 <= i <= dims.len(),
                forall|j: int| 0 <= j < i as int ==> idx[j] < dims[j],
                (cumulative as int) == spec_dims_product(dims.take(i as int)),
                (index as int) == spec_flat_index(dims.take(i as int), idx.take(i as int)),
                0 <= (index as int),
                (index as int) < (cumulative as int),
                spec_dims_product(dims) == (cumulative as int) * spec_dims_product(
                    dims.skip(i as int),
                ),
            decreases dims.len() - i,
        {
            if indices[i] >= self.dims[i] {
                return None;
            }
            proof {
                let n = i as int;
                let tdim = dims.take(n);
                let tidx = idx.take(n);
                lemma_flat_index_push(tdim, tidx, dims[n], idx[n]);
                assert(dims.take(n + 1) =~= tdim.push(dims[n]));
                assert(idx.take(n + 1) =~= tidx.push(idx[n]));
                lemma_dims_product_take(dims, n);
                lemma_dims_product_take(dims, n + 1);
                // the next cumulative product still divides the whole
                assert(forall|j: int|
                    0 <= j < dims.skip(n + 1).len() ==> #[trigger] dims.skip(n + 1)[j] == dims[
                        j + n + 1
                    ]);
                lemma_dims_product_pos(dims.skip(n + 1));
                let c = cumulative as int;
                let d = dims[n] as int;
                let x = idx[n] as int;
                let rest = spec_dims_product(dims.skip(n + 1));
                assert(dims.skip(n).first() == dims[n]);
                assert(dims.skip(n).drop_first() =~= dims.skip(n + 1));
                assert(spec_dims_product(dims.skip(n)) == d * rest);
                assert(c * (d * rest) == (c * d) * rest) by (nonlinear_arith);
                assert(c * d <= (c * d) * rest) by (nonlinear_arith)
                    requires
                        c >= 1,
                        d >= 1,
                        rest >= 1,
                ;
                assert((index as int) + c * x < c * d) by (nonlinear_arith)
                    requires
                        (index as int) < c,
                        0 <= x,
                        x < d,
                        c >= 1,
                ;
                assert(c * x >= 0) by (nonlinear_arith)
                    requires
                        c >= 0,
                        x >= 0,
                ;
                assert(vstd::std_specs::vec::spec_vec_len(&self.data) == self.data@.len());
                lemma_view_val_list(self.data@);
                assert(spec_dims_product(dims) <= usize::MAX as int);
            }
            index = index + cumulative * (indices[i] as usize);
            cumulative = cumulative * (self.dims[i] as usize);
            i += 1;
        }
        proof {
            assert(dims.take(dims.len() as int) =~= dims);
            assert(idx.take(dims.len() as int) =~= idx);
            lemma_flat_index_bound(dims, idx);
            lemma_view_val_list(self.data@);
        }
        Some(&self.data[index])
    }
}

impl ConstStruct {
    pub open spec fn spec_wf(&self) -> bool {
        self@.wf()
    }

    /// The surface type of the record: the structure name.
    pub fn type_specifier(&self) -> (r: TypeSpecifier)
        ensures
            r@.ty == TypeSpecNAView::Struct(self@.name),
            r@.array_dims is None,
    {
        TypeSpecifier {
            ty: TypeSpecifierNonArray::Struct(
                match &self.name {
                    Some(n) => Some(n.clone()),
                    None => None,
                },
            ),
            array_dims: None,
        }
    }

    /// The value of the field of the given name, or nothing where no
    /// field carries it.
    pub fn lookup_const(&self, ident: &String) -> (r: Option<&ConstVal>)
        ensures
            match r {
                Some(v) => self@.spec_lookup(ident@) == Some(v@),
                None => self@.spec_lookup(ident@) is None,
            },
    {
        proof {
            lemma_view_entry_list(self.entries@);
        }
        let mut i: usize = 0;
        while i < self.entries.len()
            invariant
                0 <= i <= self.entries@.len(),
                forall|j: int| 0 <= j < i as int ==> self.entries@[j].0@ != ident@,
                spec_view_entry_list(self.entries@).len() == self.entries@.len(),
                forall|j: int|
                    0 <= j < self.entries@.len() ==> spec_view_entry_list(self.entries@)[j] == ((
                        self.entries@[j].0@,
                        spec_view_val(self.entries@[j].1),
                    )),
            decreases self.entries@.len() - i,
        {
            if self.entries[i].0 == *ident {
                proof {
                    lemma_entries_lookup_hit(self@.entries, ident@, i as int);
                }
                return Some(&self.entries[i].1);
            }
            i += 1;
        }
        proof {
            lemma_entries_lookup_miss(self@.entries, ident@);
        }
        None
    }
}

/// Where the entries before `i` miss the name and entry `i` carries
/// it, the lookup returns entry `i`'s value.
proof fn lemma_entries_lookup_hit(s: Seq<(Seq<char>, ValView)>, name: Seq<char>, i: int)
    requires
        0 <= i < s.len(),
        forall|j: int| 0 <= j < i ==> s[j].0 != name,
        s[i].0 == name,
    ensures
        spec_entries_lookup(s, name) == Some(s[i].1),
    decreases s,
{
    if i > 0 {
        assert(forall|j: int| 0 <= j < i - 1 ==> s.drop_first()[j] == s[j + 1]);
        assert(s.drop_first()[i - 1] == s[i]);
        lemma_entries_lookup_hit(s.drop_first(), name, i - 1);
    }
}

/// Where no entry carries the name, the lookup is absent.
proof fn lemma_entries_lookup_miss(s: Seq<(Seq<char>, ValView)>, name: Seq<char>)
    requires
        forall|j: int| 0 <= j < s.len() ==> s[j].0 != name,
    ensures
        spec_entries_lookup(s, name) is None,
    decreases s,
{
    if s.len() > 0 {
        assert(forall|j: int|
            0 <= j < s.drop_first().len() ==> s.drop_first()[j] == s[j + 1]);
        lemma_entries_lookup_miss(s.drop_first(), name);
    }
}

impl ConstVal {
    pub open spec fn spec_wf(&self) -> bool {
        self@.wf()
    }

    /// The basic value this constant holds, where it is one.
    pub fn try_into_base(&self) -> (r: Option<&ConstBaseVal>)
        ensures
            match r {
                Some(b) => self@ == ValView::Base(b@),
                None => !(self@ is Base),
            },
    {
        match self {
            ConstVal::Base(v) => Some(v),
            _ => None,
        }
    }

    /// The surface type of any constant value.
    pub fn type_specifier(&self) -> (r: TypeSpecifier)
        ensures
            r@ == self@.spec_type_specifier(),
    {
        match self {
            ConstVal::Base(v) => v.type_specifier(),
            ConstVal::Array(v) => v.type_specifier(),
            ConstVal::Struct(v) => v.type_specifier(),
        }
    }
}

impl ValView {
    /// The surface type a constant value presents.
    pub open spec fn spec_type_specifier(self) -> TypeSpecView {
        match self {
            ValView::Base(b) => TypeSpecView {
                ty: TypeSpecNAView::Base(ParameterBaseType::spec_from_const_val(b), b.spec_shape()),
                array_dims: None,
            },
            ValView::Array(a) => TypeSpecView { ty: a.ty, array_dims: Some(a.dims) },
            ValView::Struct(s) => TypeSpecView {
                ty: TypeSpecNAView::Struct(s.name),
                array_dims: None,
            },
        }
    }
}

impl ConstBaseVal {
    /// The surface type of a basic value: its base type and shape.
    pub fn type_specifier_non_array(&self) -> (r: TypeSpecifierNonArray)
        ensures
            r@ == TypeSpecNAView::Base(
                ParameterBaseType::spec_from_const_val(self@),
                self@.spec_shape(),
            ),
    {
        TypeSpecifierNonArray::Base(ParameterBaseType::from_const_val(self), self.get_shape())
    }

    pub fn type_specifier(&self) -> (r: TypeSpecifier)
        ensures
            r@ == ValView::Base(self@).spec_type_specifier(),
    {
        TypeSpecifier { ty: self.type_specifier_non_array(), array_dims: None }
    }
}

/// A deep copy of a constant value; the copy has the same view.
pub fn clone_const_val(v: &ConstVal) -> (r: ConstVal)
    ensures
        r@ == v@,
    decreases *v,
{
    match v {
        ConstVal::Base(b) => ConstVal::Base(crate::ops::copy_base_val(b)),
        ConstVal::Array(a) => {
            let mut dims: Vec<u32> = Vec::new();
            let mut i: usize = 0;
            while i < a.dims.len()
                invariant
                    0 <= i <= a.dims@.len(),
                    dims@.len() == i as int,
                    forall|j: int| 0 <= j < i as int ==> dims@[j] == a.dims@[j],
                decreases a.dims@.len() - i,
            {
                dims.push(a.dims[i]);
                i += 1;
            }
            let data = clone_val_list(&a.data);
            proof {
                assert(dims@ =~= a.dims@);
                lemma_view_val_list(data@);
                lemma_view_val_list(a.data@);
                assert(spec_view_val_list(data@) =~= spec_view_val_list(a.data@));
            }
            ConstVal::Array(ConstArray { ty: clone_type_spec_na(&a.ty), dims, data })
        },
        ConstVal::Struct(st) => {
            let entries = clone_entry_list(&st.entries);
            proof {
                lemma_view_entry_list(entries@);
                lemma_view_entry_list(st.entries@);
                assert(spec_view_entry_list(entries@) =~= spec_view_entry_list(st.entries@));
            }
            ConstVal::Struct(
                ConstStruct {
                    name: match &st.name {
                        Some(n) => Some(n.clone()),
                        None => None,
                    },
                    entries,
                },
            )
        },
    }
}

fn clone_val_list(data: &Vec<ConstVal>) -> (r: Vec<ConstVal>)
    ensures
        r@.len() == data@.len(),
        forall|j: int|
            0 <= j < data@.len() ==> spec_view_val(#[trigger] r@[j]) == spec_view_val(data@[j]),
    decreases data@,
{
    let mut out: Vec<ConstVal> = Vec::new();
    let mut k: usize = 0;
    while k < data.len()
        invariant
            0 <= k <= data@.len(),
            out@.len() == k as int,
            forall|j: int|
                0 <= j < k as int ==> spec_view_val(#[trigger] out@[j]) == spec_view_val(
                    data@[j],
                ),
        decreases data@.len() - k,
    {
        out.push(clone_const_val(&data[k]));
        k += 1;
    }
    out
}

fn clone_entry_list(entries: &Vec<(String, ConstVal)>) -> (r: Vec<(String, ConstVal)>)
    ensures
        r@.len() == entries@.len(),
        forall|j: int|
            0 <= j < entries@.len() ==> (#[trigger] r@[j]).0@ == entries@[j].0@ && spec_view_val(
                r@[j].1,
            ) == spec_view_val(entries@[j].1),
    decreases entries@,
{
    let mut out: Vec<(String, ConstVal)> = Vec::new();
    let mut k: usize = 0;
    while k < entries.len()
        invariant
            0 <= k <= entries@.len(),
            out@.len() == k as int,
            forall|j: int|
                0 <= j < k as int ==> (#[trigger] out@[j]).0@ == entries@[j].0@ && spec_view_val(
                    out@[j].1,
                ) == spec_view_val(entries@[j].1),
        decreases entries@.len() - k,
    {
        let name = entries[k].0.clone();
        let val = clone_const_val(&entries[k].1);
        out.push((name, val));
        k += 1;
    }
    out
}

/// A record's looked-up field is well formed where the record is.
pub proof fn lemma_entries_lookup_wf(s: Seq<(Seq<char>, ValView)>, name: Seq<char>)
    requires
        spec_entries_wf(s),
    ensures
        match spec_entries_lookup(s, name) {
            Some(v) => v.wf(),
            None => true,
        },
    decreases s,
{
    if s.len() > 0 && s.first().0 != name {
        lemma_entries_lookup_wf(s.drop_first(), name);
    }
}

} // verus!

