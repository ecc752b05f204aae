use vstd::prelude::*;

verus! {

/// Radius of the Earth in kilometers.
pub const KILOMETERS: u32 = 6371;

/// Radius of the Earth in miles.
pub const MILES: u32 = 3960;

/// The scalar arithmetic and the elementary functions that the distance
/// calculation needs, supplied by a numeric provider (a host math library,
/// or a bundled one).
///
/// Each operation is a function of its arguments alone: the spec function
/// beside it names that result, so the formula built from them is fixed.
pub trait Real: Copy + Sized {
    spec fn spec_plus(a: Self, b: Self) -> Self;

    spec fn spec_minus(a: Self, b: Self) -> Self;

    spec fn spec_times(a: Self, b: Self) -> Self;

    spec fn spec_divide(a: Self, b: Self) -> Self;

    spec fn spec_from_u32(n: u32) -> Self;

    spec fn spec_pi() -> Self;

    spec fn spec_sin(x: Self) -> Self;

    spec fn spec_cos(x: Self) -> Self;

    spec fn spec_sqrt(x: Self) -> Self;

    spec fn spec_atan2(y: Self, x: Self) -> Self;

    fn plus(a: Self, b: Self) -> (r: Self)
        ensures
            r == Self::spec_plus(a, b),
    ;

    fn minus(a: Self, b: Self) -> (r: Self)
        ensures
            r == Self::spec_minus(a, b),
    ;

    fn times(a: Self, b: Self) -> (r: Self)
        ensures
            r == Self::spec_times(a, b),
    ;

    fn divide(a: Self, b: Self) -> (r: Self)
        ensures
            r == Self::spec_divide(a, b),
    ;

    /// The number `n` as a scalar.
    fn from_u32(n: u32) -> (r: Self)
        ensures
            r == Self::spec_from_u32(n),
    ;

    /// The constant 3.14159265358979323846264338327950288 as a scalar.
    fn pi() -> (r: Self)
        ensures
            r == Self::spec_pi(),
    ;

    fn sin(x: Self) -> (r: Self)
        ensures
            r == Self::spec_sin(x),
    ;

    fn cos(x: Self) -> (r: Self)
        ensures
            r == Self::spec_cos(x),
    ;

    fn sqrt(x: Self) -> (r: Self)
        ensures
            r == Self::spec_sqrt(x),
    ;

    /// The angle of the vector `(x, y)`, in radians.
    fn atan2(y: Self, x: Self) -> (r: Self)
        ensures
            r == Self::spec_atan2(y, x),
    ;
}

/// All supported units of distance; `R` is the scalar type of a custom radius.
#[derive(Clone, Copy, Debug)]
pub enum Unit<R> {
    Kilometer,
    Mile,
    CustomSphere(R),
}

/// The radius of the sphere on which distances in unit `u` are measured.
pub open spec fn radius_of<T: Real>(u: Unit<T>) -> T {
    match u {
        Unit::Kilometer => T::spec_from_u32(KILOMETERS),
        Unit::Mile => T::spec_from_u32(MILES),
        Unit::CustomSphere(r) => r,
    }
}

impl<T: Real> Unit<T> {
    /// The radius of the sphere on which distances in this unit are measured.
    pub fn radius(&self) -> (r: T)
        ensures
            r == radius_of(*self),
    {
        match self {
            Unit::Kilometer => T::from_u32(KILOMETERS),
            Unit::Mile => T::from_u32(MILES),
            Unit::CustomSphere(c) => *c,
        }
    }
}

/// `x` times `x`.
pub open spec fn squared_of<T: Real>(x: T) -> T {
    T::spec_times(x, x)
}

/// An angle of `deg` degrees in radians: `deg * pi / 180`.
pub open spec fn radians_of<T: Real>(deg: T) -> T {
    T::spec_divide(T::spec_times(deg, T::spec_pi()), T::spec_from_u32(180))
}

/// The central angle between two locations, by the haversine formula:
/// `2 * atan2(sqrt(h), sqrt(1 - h))` with
/// `h = sin^2(dlat / 2) + sin^2(dlon / 2) * cos(lat1) * cos(lat2)`.
pub open spec fn central_angle_of<T: Real>(a: Location<T>, b: Location<T>) -> T {
    let two = T::spec_from_u32(2);
    let d_lat = radians_of(T::spec_minus(b.latitude, a.latitude));
    let d_lon = radians_of(T::spec_minus(b.longitude, a.longitude));
    let lat1 = radians_of(a.latitude);
    let lat2 = radians_of(b.latitude);
    let h = T::spec_plus(
        squared_of(T::spec_sin(T::spec_divide(d_lat, two))),
        T::spec_times(
            T::spec_times(squared_of(T::spec_sin(T::spec_divide(d_lon, two))), T::spec_cos(lat1)),
            T::spec_cos(lat2),
        ),
    );
    T::spec_times(
        two,
        T::spec_atan2(T::spec_sqrt(h), T::spec_sqrt(T::spec_minus(T::spec_from_u32(1), h))),
    )
}

/// The great-circle distance from `a` to `b` in unit `u`: the unit's radius
/// times the central angle.
pub open spec fn haversine_of<T: Real>(a: Location<T>, b: Location<T>, u: Unit<T>) -> T {
    T::spec_times(radius_of(u), central_angle_of(a, b))
}

/// The distance on a sphere of a caller's radius is that radius times a
/// central angle that depends on the two locations alone.
pub proof fn lemma_custom_sphere_scales<T: Real>(a: Location<T>, b: Location<T>, r: T)
    ensures
        haversine_of(a, b, Unit::CustomSphere(r)) == T::spec_times(r, central_angle_of(a, b)),
{
}

/// The distance in miles is the distance in unit `Mile`, and the distance in
/// kilometers the distance in unit `Kilometer`.
pub proof fn lemma_named_units<T: Real>(a: Location<T>, b: Location<T>)
    ensures
        haversine_of(a, b, Unit::Mile) == T::spec_times(T::spec_from_u32(MILES), central_angle_of(a, b)),
        haversine_of(a, b, Unit::Kilometer) == T::spec_times(
            T::spec_from_u32(KILOMETERS),
            central_angle_of(a, b),
        ),
{
}

/// A location represented with a latitude and longitude, in degrees.
#[derive(Clone, Copy, Debug)]
pub struct Location<T> {
    pub latitude: T,
    pub longitude: T,
}

impl<T> Location<T> {
    /// Creates a new location.
    pub fn new(latitude: T, longitude: T) -> (r: Self)
        ensures
            r.latitude == latitude,
            r.longitude == longitude,
    {
        Location { latitude, longitude }
    }
}

fn squared<T: Real>(x: T) -> (r: T)
    ensures
        r == squared_of(x),
{
    T::times(x, x)
}

fn to_radians<T: Real>(deg: T) -> (r: T)
    ensures
        r == radians_of(deg),
{
    T::divide(T::times(deg, T::pi()), T::from_u32(180))
}

impl<T: Real> Location<T> {
    /// Calculates the distance between two locations and returns it in the
    /// assigned unit.
    pub fn distance_to(&self, other: &Location<T>, unit: Unit<T>) -> (r: T)
        ensures
            r == haversine_of(*self, *other, unit),
    {
        let r = unit.radius();
        let two = T::from_u32(2);

        let d_lat = to_radians(T::minus(other.latitude, self.latitude));
        let d_lon = to_radians(T::minus(other.longitude, self.longitude));

        let lat1 = to_radians(self.latitude);
        let lat2 = to_radians(other.latitude);

        let a = T::plus(
            squared(T::sin(T::divide(d_lat, two))),
            T::times(T::times(squared(T::sin(T::divide(d_lon, two))), T::cos(lat1)), T::cos(lat2)),
        );
        let c = T::times(two, T::atan2(T::sqrt(a), T::sqrt(T::minus(T::from_u32(1), a))));

        T::times(r, c)
    }

    /// The distance in miles; the same as `distance_to(other, Unit::Mile)`.
    pub fn miles_to(&self, other: &Location<T>) -> (r: T)
        ensures
            r == haversine_of(*self, *other, Unit::Mile),
    {
        self.distance_to(other, Unit::Mile)
    }

    /// The distance in kilometers; the same as
    /// `distance_to(other, Unit::Kilometer)`.
    pub fn kilometers_to(&self, other: &Location<T>) -> (r: T)
        ensures
            r == haversine_of(*self, *other, Unit::Kilometer),
    {
        self.distance_to(other, Unit::Kilometer)
    }
}

} // verus!
