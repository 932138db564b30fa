use vstd::prelude::*;

verus! {

/// Holds an `arrow_array::Int32Array`. The array type's own declaration is
/// out of reach (its generic parameter is bound by a trait of the outside
/// crate), so the column is carried behind this opaque holder and read back
/// only through the accessors below.
#[verifier::external_body]
pub struct Int32Column {
    inner: arrow_array::Int32Array,
}

/// What an [`Int32Column`]'s array holds, element by element.
pub uninterp spec fn int32_column_contents(column: Int32Column) -> Seq<i32>;

/// Relies on `Int32Array`'s `From<Vec<i32>>`: the built array holds exactly
/// the given values, in order, with no nulls.
#[verifier::external_body]
fn int32_column_from_values(values: Vec<i32>) -> (column: Int32Column)
    ensures
        int32_column_contents(column) == values@,
{
    Int32Column { inner: arrow_array::Int32Array::from(values) }
}

/// Relies on `Array::len` for `PrimitiveArray`: the number of elements.
#[verifier::external_body]
fn int32_column_len(column: &Int32Column) -> (n: usize)
    ensures
        n == int32_column_contents(*column).len(),
{
    arrow_array::Array::len(&column.inner)
}

/// Relies on `PrimitiveArray::value`: the element at `index`, defined (and
/// panic-free) only below the array's length.
#[verifier::external_body]
fn int32_column_value(column: &Int32Column, index: usize) -> (value: i32)
    requires
        index < int32_column_contents(*column).len(),
    ensures
        value == int32_column_contents(*column)[index as int],
{
    column.inner.value(index)
}

/// Reads a whole column back as plain values, in order.
pub fn column_values(column: &Int32Column) -> (values: Vec<i32>)
    ensures
        values@ == int32_column_contents(*column),
{
    let n = int32_column_len(column);
    let mut values: Vec<i32> = Vec::new();
    let mut i: usize = 0;
    while i < n
        invariant
            n == int32_column_contents(*column).len(),
            i <= n,
            values@.len() == i,
            forall|j: int| 0 <= j < i ==> values@[j] == int32_column_contents(*column)[j],
        decreases n - i,
    {
        values.push(int32_column_value(column, i));
        i = i + 1;
    }
    proof {
        assert(values@ =~= int32_column_contents(*column));
    }
    values
}

/// Builds the demonstration column of the five values one to five; the
/// boundary that exports it as a foreign array lives with the caller.
pub fn create_arrow_array() -> (column: Int32Column)
    ensures
        int32_column_contents(column) == seq![1i32, 2i32, 3i32, 4i32, 5i32],
{
    let mut values: Vec<i32> = Vec::new();
    values.push(1);
    values.push(2);
    values.push(3);
    values.push(4);
    values.push(5);
    proof {
        assert(values@ =~= seq![1i32, 2i32, 3i32, 4i32, 5i32]);
    }
    int32_column_from_values(values)
}

} // verus!
