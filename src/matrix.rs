use vstd::prelude::*;

verus! {

/// A 4×4 matrix stored row by row; `values[y][x]` is row `y`, column `x`.
#[derive(Debug)]
pub struct Matrix<T> {
    values: [[T; 4]; 4],
}

impl<T: Copy> Matrix<T> {
    /// The entry at row `y`, column `x`.
    pub closed spec fn entry(&self, y: int, x: int) -> T {
        self.values[y][x]
    }

    /// Builds a matrix from its rows.
    pub fn new(values: [[T; 4]; 4]) -> (m: Self)
        ensures
            forall|y: int, x: int| 0 <= y < 4 && 0 <= x < 4 ==> #[trigger] m.entry(y, x) == values[y][x],
    {
        Matrix { values }
    }

    /// The entry at row `y`, column `x`.
    pub fn at(&self, y: usize, x: usize) -> (v: T)
        requires
            y < 4,
            x < 4,
        ensures
            v == self.entry(y as int, x as int),
    {
        self.values[y][x]
    }

    /// Row `y`, as an array of its four entries.
    pub fn row(&self, y: usize) -> (r: [T; 4])
        requires
            y < 4,
        ensures
            forall|x: int| 0 <= x < 4 ==> #[trigger] r[x] == self.entry(y as int, x),
    {
        self.values[y]
    }

    /// The matrix with rows and columns exchanged.
    pub fn transpose(&self) -> (t: Self)
        ensures
            forall|y: int, x: int| 0 <= y < 4 && 0 <= x < 4 ==> #[trigger] t.entry(y, x) == self.entry(x, y),
    {
        let v = &self.values;
        Matrix {
            values: [
                [v[0][0], v[1][0], v[2][0], v[3][0]],
                [v[0][1], v[1][1], v[2][1], v[3][1]],
                [v[0][2], v[1][2], v[2][2], v[3][2]],
                [v[0][3], v[1][3], v[2][3], v[3][3]],
            ],
        }
    }
}

} // verus!
