use nalgebra::{Matrix3, Rotation3, Vector3};
use rtsam::base::group::{GroupError, LieGroup};
use rtsam::base::manifold::Manifold;

/// Rotations of space, with the group operations of nalgebra.
#[derive(Debug, Clone, Copy, PartialEq)]
struct SO3(Rotation3<f64>);

impl SO3 {
    fn new(axisangle: Vector3<f64>) -> Self {
        SO3(Rotation3::new(axisangle))
    }

    fn matrix(&self) -> &Matrix3<f64> {
        self.0.matrix()
    }
}

impl LieGroup for SO3 {
    type Tangent = Vector3<f64>;
    type Adjoint = Matrix3<f64>;

    fn dim() -> usize {
        3
    }

    fn compose(&self, g: &Self) -> Self {
        SO3(self.0 * g.0)
    }

    fn between(&self, g: &Self) -> Self {
        SO3(self.0.inverse() * g.0)
    }

    fn adjoint_map(&self) -> Matrix3<f64> {
        *self.0.matrix()
    }

    fn logmap(r: &Self) -> Vector3<f64> {
        r.0.scaled_axis()
    }

    fn logmap_with_derivative(_r: &Self) -> Result<(Vector3<f64>, Matrix3<f64>), GroupError> {
        Err(GroupError::DerivativeUnavailable)
    }

    fn expmap(omega: &Vector3<f64>) -> Self {
        SO3(Rotation3::new(*omega))
    }

    fn expmap_with_derivative(_omega: &Vector3<f64>) -> Result<(Self, Matrix3<f64>), GroupError> {
        Err(GroupError::DerivativeUnavailable)
    }
}

/// The integers under addition: a group in which every operation is exact.
#[derive(Debug, Clone, Copy, PartialEq)]
struct Shift(i64);

impl LieGroup for Shift {
    type Tangent = i64;
    type Adjoint = i64;

    fn dim() -> usize {
        1
    }

    fn compose(&self, g: &Self) -> Self {
        Shift(self.0 + g.0)
    }

    fn between(&self, g: &Self) -> Self {
        Shift(g.0 - self.0)
    }

    fn adjoint_map(&self) -> i64 {
        1
    }

    fn logmap(r: &Self) -> i64 {
        r.0
    }

    fn logmap_with_derivative(r: &Self) -> Result<(i64, i64), GroupError> {
        Ok((r.0, 1))
    }

    fn expmap(omega: &i64) -> Self {
        Shift(*omega)
    }

    fn expmap_with_derivative(omega: &i64) -> Result<(Self, i64), GroupError> {
        Ok((Shift(*omega), 1))
    }
}

#[test]
fn test_manifold_local() {
    let z = Vector3::new(0., 0., 0.2);
    let v = SO3::new(Vector3::z() * 0.1);
    let w = SO3::new(Vector3::z() * 0.3);

    assert!((z - SO3::local(&v, &w)).norm() <= f64::EPSILON);
}

#[test]
fn test_manifold_retract() {
    let z = Vector3::new(0., 0., 0.1);
    let v = SO3::new(Vector3::z() * 0.1);
    let w = SO3::new(Vector3::z() * 0.2);

    assert!((w.matrix() - SO3::retract(&v, &z).matrix()).norm() <= 1e-10);
}

#[test]
fn local_is_the_logarithm_of_the_step_between() {
    assert_eq!(Shift::local(&Shift(3), &Shift(10)), 7);
    assert_eq!(Shift::local(&Shift(10), &Shift(3)), -7);
    assert_eq!(Shift::local(&Shift(-4), &Shift(-4)), 0);
}

#[test]
fn retract_composes_with_the_exponential_of_the_step() {
    assert_eq!(Shift::retract(&Shift(3), &7), Shift(10));
    assert_eq!(Shift::retract(&Shift(3), &0), Shift(3));
    assert_eq!(Shift::retract(&Shift(3), &-5), Shift(-2));
}

#[test]
fn retract_undoes_local_in_an_exact_group() {
    for x in [-9_i64, 0, 4, 1000] {
        for y in [-7_i64, 0, 5, 12345] {
            let step = Shift::local(&Shift(x), &Shift(y));
            assert_eq!(Shift::retract(&Shift(x), &step), Shift(y));
        }
    }
}

#[test]
fn retract_undoes_local_for_rotations() {
    let x = SO3::new(Vector3::new(0.1, 0.27, -0.2));
    let y = SO3::new(Vector3::new(1., 1.2, 1.3));
    let step = SO3::local(&x, &y);
    let back = SO3::retract(&x, &step);
    assert!((back.matrix() - y.matrix()).norm() <= 1e-10);
}

#[test]
fn group_error_variants_differ() {
    assert_ne!(GroupError::DerivativeUnavailable, GroupError::InvalidGroupElement);
    assert_eq!(
        SO3::expmap_with_derivative(&Vector3::zeros()).unwrap_err(),
        GroupError::DerivativeUnavailable
    );
}
