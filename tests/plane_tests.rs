use projgeom::ck_plane::CayleyKleinPlane;
use projgeom::euclid_object;
use projgeom::pg_object::{cross2, cross_product, dot1, dot_product, plucker_operation};
use projgeom::pg_plane::{ProjectivePlane, ProjectivePlanePrimitive};
use projgeom::{
    altitude, check_axiom, check_axiom2, check_desargue, check_pappus, coincident, harm_conj,
    involution, is_perpendicular, orthocenter, persp, reflect, tri_altitude, tri_dual,
};
use projgeom::{EllipticLine, EllipticPoint, EuclidLine, EuclidPoint, HyperbolicLine, HyperbolicPoint};
use projgeom::{MyCKLine, MyCKPoint, PerspLine, PerspPoint, PgLine, PgPoint};
use projgeom::CayleyKleinPlanePrimitive;

fn check_pg_plane<Point, Line>(pt_p: Point, pt_q: Point)
where
    Point: ProjectivePlane<Line> + std::fmt::Debug,
    Line: ProjectivePlane<Point> + std::fmt::Debug,
{
    let ln_l = pt_p.meet(&pt_q);
    assert_eq!(ln_l, pt_q.meet(&pt_p));
    assert!(ln_l.incident(&pt_p));
    assert!(ln_l.incident(&pt_q));
    let point_pq = Point::parametrize(&pt_p, 2, &pt_q, 3);
    assert!(coincident(&pt_p, &pt_q, &point_pq));

    let harm_h = harm_conj(&pt_p, &pt_q, &point_pq);
    assert_eq!(harm_conj(&pt_p, &pt_q, &harm_h), point_pq);
}

#[test]
fn test_pg_point() {
    let pt_p = PgPoint::new([1, 3, 2]);
    let pt_q = PgPoint::new([-2, 1, -1]);
    check_pg_plane(pt_p, pt_q);
}

#[test]
fn test_pg_line() {
    let pt_p = PgLine::new([1, 3, 2]);
    let pt_q = PgLine::new([-2, 1, -1]);
    check_pg_plane(pt_p, pt_q);
}

fn check_ck_plane<Point, Line>(a_1: Point, a_2: Point, a_3: Point)
where
    Point: CayleyKleinPlane<Line> + std::fmt::Debug,
    Line: CayleyKleinPlane<Point> + std::fmt::Debug,
{
    let triangle = [a_1, a_2, a_3];
    let trilateral = tri_dual(&triangle);
    let l_1 = &trilateral[0];
    assert!(l_1.incident(&triangle[1]));

    let [t_1, t_2, t_3] = tri_altitude(&triangle);
    assert!(is_perpendicular(&t_1, l_1));
    let pt_o = orthocenter(&triangle);
    assert_eq!(pt_o, t_2.meet(&t_3));
}

#[test]
fn test_ell_point() {
    check_ck_plane(
        EllipticPoint::new([13, 23, 32]),
        EllipticPoint::new([44, -34, 2]),
        EllipticPoint::new([-2, 12, 23]),
    );
}

#[test]
fn test_ell_line() {
    check_ck_plane(
        EllipticLine::new([13, 23, 32]),
        EllipticLine::new([44, -34, 2]),
        EllipticLine::new([-2, 12, 23]),
    );
}

#[test]
fn test_hyp_point() {
    check_ck_plane(
        HyperbolicPoint::new([13, 23, 32]),
        HyperbolicPoint::new([44, -34, 2]),
        HyperbolicPoint::new([-2, 12, 23]),
    );
}

#[test]
fn test_hyp_line() {
    check_ck_plane(
        HyperbolicLine::new([13, 23, 32]),
        HyperbolicLine::new([44, -34, 2]),
        HyperbolicLine::new([-2, 12, 23]),
    );
}

#[test]
fn test_myck_point() {
    check_ck_plane(
        MyCKPoint::new([13, 23, 32]),
        MyCKPoint::new([44, -34, 2]),
        MyCKPoint::new([-2, 12, 23]),
    );
}

#[test]
fn test_myck_line() {
    check_ck_plane(
        MyCKLine::new([13, 23, 32]),
        MyCKLine::new([44, -34, 2]),
        MyCKLine::new([-2, 12, 23]),
    );
}

#[test]
fn test_persp_point() {
    check_ck_plane(
        PerspPoint::new([13, 23, 32]),
        PerspPoint::new([44, -34, 2]),
        PerspPoint::new([-2, 12, 23]),
    );
}

#[test]
fn test_euclid_point() {
    check_ck_plane(
        EuclidPoint::new([13, 23, 32]),
        EuclidPoint::new([44, -34, 2]),
        EuclidPoint::new([-2, 12, 23]),
    );
}

#[test]
fn test_dot_product() {
    assert_eq!(dot_product(&[1, 2, 3], &[3, 4, 5]), 26);
    assert_eq!(dot_product(&[0, 0, 0], &[3, 4, 5]), 0);
    assert_eq!(dot_product(&[1, 2, 3], &[0, 0, 0]), 0);
    assert_eq!(dot_product(&[-1, -2, -3], &[3, 4, 5]), -26);
    assert_eq!(dot_product(&[1, 0, 0], &[0, 1, 0]), 0);
}

#[test]
fn test_cross_product() {
    assert_eq!(cross_product(&[1, 2, 3], &[3, 4, 5]), [-2, 4, -2]);
    assert_eq!(cross_product(&[1, 2, 3], &[2, 4, 6]), [0, 0, 0]);
    assert_eq!(cross_product(&[0, 0, 0], &[3, 4, 5]), [0, 0, 0]);
    assert_eq!(cross_product(&[1, 2, 3], &[0, 0, 0]), [0, 0, 0]);
    assert_eq!(cross_product(&[1, 0, 0], &[0, 1, 0]), [0, 0, 1]);
    assert_eq!(cross_product(&[0, 1, 0], &[0, 0, 1]), [1, 0, 0]);
}

#[test]
fn test_plucker_operation() {
    assert_eq!(plucker_operation(1, &[1, 2, 3], 1, &[3, 4, 5]), [4, 6, 8]);
    assert_eq!(plucker_operation(-1, &[1, 2, 3], 1, &[3, 4, 5]), [2, 2, 2]);
    assert_eq!(plucker_operation(1, &[1, 2, 3], -1, &[3, 4, 5]), [-2, -2, -2]);
    assert_eq!(plucker_operation(0, &[1, 2, 3], 1, &[3, 4, 5]), [3, 4, 5]);
    assert_eq!(plucker_operation(1, &[1, 2, 3], 0, &[3, 4, 5]), [1, 2, 3]);
    assert_eq!(plucker_operation(0, &[1, 2, 3], 0, &[3, 4, 5]), [0, 0, 0]);
}

#[test]
fn test_pg_point_new() {
    let point_p = PgPoint::new([1, 2, 3]);
    assert_eq!(point_p.coord, [1, 2, 3]);
}

#[test]
fn test_pg_line_new() {
    let line_l = PgLine::new([1, 2, 3]);
    assert_eq!(line_l.coord, [1, 2, 3]);
}

#[test]
fn test_pg_point_eq() {
    let p1 = PgPoint::new([1, 2, 3]);
    let p2 = PgPoint::new([2, 4, 6]);
    let p3 = PgPoint::new([1, 2, 4]);
    assert_eq!(p1, p2);
    assert_ne!(p1, p3);
}

#[test]
fn test_pg_line_eq() {
    let l1 = PgLine::new([1, 2, 3]);
    let l2 = PgLine::new([2, 4, 6]);
    let l3 = PgLine::new([1, 2, 4]);
    assert_eq!(l1, l2);
    assert_ne!(l1, l3);
}

#[test]
fn test_pg_point_incident() {
    let point_p = PgPoint::new([1, 1, 1]);
    let line_l = PgLine::new([1, 1, 0]);
    assert!(!point_p.incident(&line_l));
    let p_on_l = PgPoint::new([1, -1, 1]);
    assert!(p_on_l.incident(&line_l));
    let l_through_p = PgLine::new([1, -1, 0]);
    assert!(point_p.incident(&l_through_p));
}

#[test]
fn test_pg_line_incident() {
    let l_not_incident = PgLine::new([1, 0, 0]);
    let p_not_incident = PgPoint::new([1, 1, 1]);
    assert!(!l_not_incident.incident(&p_not_incident));
    let l_on_p = PgLine::new([1, 1, -2]);
    let point_p = PgPoint::new([1, 1, 1]);
    assert!(l_on_p.incident(&point_p));
    let line_l = PgLine::new([1, -1, 0]);
    let p_on_l = PgPoint::new([1, 1, 1]);
    assert!(line_l.incident(&p_on_l));
}

#[test]
fn test_pg_point_meet() {
    let p1 = PgPoint::new([1, 0, 0]);
    let p2 = PgPoint::new([0, 1, 0]);
    let line_at_infinity = PgLine::new([0, 0, 1]);
    assert_eq!(p1.meet(&p2), line_at_infinity);
    let p3 = PgPoint::new([1, 2, 1]);
    let p4 = PgPoint::new([3, 4, 1]);
    let line_p3_p4 = p3.meet(&p4);
    assert_eq!(line_p3_p4, PgLine::new([1, -1, 1]));
}

#[test]
fn test_pg_line_meet() {
    let l1 = PgLine::new([1, 0, 0]);
    let l2 = PgLine::new([0, 1, 0]);
    let origin = PgPoint::new([0, 0, 1]);
    assert_eq!(l1.meet(&l2), origin);
    let l3 = PgLine::new([1, -1, 0]);
    let l4 = PgLine::new([1, 1, -2]);
    let intersection_point = l3.meet(&l4);
    assert_eq!(intersection_point, PgPoint::new([1, 1, 1]));
}

#[test]
fn test_pg_point_parametrize() {
    let p1 = PgPoint::new([1, 0, 0]);
    let p2 = PgPoint::new([0, 1, 0]);
    let p_mid = p1.parametrize(1, &p2, 1);
    assert_eq!(p_mid, PgPoint::new([1, 1, 0]));
    let p_weighted = p1.parametrize(2, &p2, 1);
    assert_eq!(p_weighted, PgPoint::new([2, 1, 0]));
    let p_only_p2 = p1.parametrize(0, &p2, 1);
    assert_eq!(p_only_p2, p2);
}

#[test]
fn test_pg_line_parametrize() {
    let l1 = PgLine::new([1, 0, 0]);
    let l2 = PgLine::new([0, 1, 0]);
    let l_mid = l1.parametrize(1, &l2, 1);
    assert_eq!(l_mid, PgLine::new([1, 1, 0]));
    let l_weighted = l1.parametrize(2, &l2, 1);
    assert_eq!(l_weighted, PgLine::new([2, 1, 0]));
    let l_only_l2 = l1.parametrize(0, &l2, 1);
    assert_eq!(l_only_l2, l2);
}

#[test]
fn test_desargues_theorem() {
    let a1 = PgPoint::new([1, 0, 0]);
    let b1 = PgPoint::new([0, 1, 0]);
    let c1 = PgPoint::new([0, 0, 1]);
    let p = PgPoint::new([1, 1, 1]);
    let a2 = PgPoint::new([2, 1, 1]);
    let b2 = PgPoint::new([1, 2, 1]);
    let c2 = PgPoint::new([1, 1, 2]);
    let line_a1a2 = a1.meet(&a2);
    let line_b1b2 = b1.meet(&b2);
    let line_c1c2 = c1.meet(&c2);
    assert!(coincident(&line_a1a2.meet(&line_b1b2), &p, &line_a1a2.meet(&line_c1c2)));
    let ab = a1.meet(&b1).meet(&a2.meet(&b2));
    let bc = b1.meet(&c1).meet(&b2.meet(&c2));
    let ca = c1.meet(&a1).meet(&c2.meet(&a2));
    assert!(coincident(&ab, &bc, &ca));
}

#[test]
fn test_pappus_theorem() {
    let a = PgPoint::new([1, 0, 1]);
    let b = PgPoint::new([2, 0, 1]);
    let c = PgPoint::new([3, 0, 1]);
    let d = PgPoint::new([1, -1, 1]);
    let e = PgPoint::new([2, -2, 1]);
    let f = PgPoint::new([3, -3, 1]);
    let line_ae = a.meet(&e);
    let line_eb = e.meet(&b);
    let line_bf = b.meet(&f);
    let line_fc = f.meet(&c);
    let line_cd = c.meet(&d);
    let line_da = d.meet(&a);
    let p1 = line_ae.meet(&line_fc);
    let p2 = line_eb.meet(&line_cd);
    let p3 = line_bf.meet(&line_da);
    assert!(coincident(&p1, &p2, &p3));
}

#[test]
fn test_pascal_theorem() {
    let p1 = PgPoint::new([1, 0, 1]);
    let p2 = PgPoint::new([0, 1, 1]);
    let p3 = PgPoint::new([-1, 0, 1]);
    let p4 = PgPoint::new([0, -1, 1]);
    let p5 = PgPoint::new([2, 0, 1]);
    let p6 = PgPoint::new([0, 2, 1]);
    let line_p1p2 = p1.meet(&p2);
    let line_p2p3 = p2.meet(&p3);
    let line_p3p4 = p3.meet(&p4);
    let line_p4p5 = p4.meet(&p5);
    let line_p5p6 = p5.meet(&p6);
    let line_p6p1 = p6.meet(&p1);
    let q1 = line_p1p2.meet(&line_p4p5);
    let q2 = line_p2p3.meet(&line_p5p6);
    let q3 = line_p3p4.meet(&line_p6p1);
    assert!(coincident(&q1, &q2, &q3));
}

#[test]
fn test_harmonic_bundle() {
    let a = PgPoint::new([1, 0, 0]);
    let b = PgPoint::new([0, 1, 0]);
    let c = PgPoint::new([1, 1, 0]);
    let d = harm_conj(&a, &b, &c);
    let _line = a.meet(&b);
    let d_double = harm_conj(&a, &b, &d);
    assert_eq!(d_double, c);
}

#[test]
fn test_elliptic_triangle_properties() {
    let a = EllipticPoint::new([1, 0, 0]);
    let b = EllipticPoint::new([0, 1, 0]);
    let c = EllipticPoint::new([0, 0, 1]);
    let triangle = [a.clone(), b.clone(), c.clone()];
    let orthocenter_pt = orthocenter(&triangle);
    let line_ab = a.meet(&b);
    let line_bc = b.meet(&c);
    let pole_pg = line_ab.aux().meet(&line_bc.aux());
    let pole = EllipticPoint::new(pole_pg.coord);
    assert_eq!(orthocenter_pt, pole);
}

#[test]
fn test_cross_ratio_invariance() {
    let p1 = PgPoint::new([1, 0, 0]);
    let p2 = PgPoint::new([0, 1, 0]);
    let p3 = PgPoint::new([1, 1, 0]);
    let p4 = PgPoint::new([2, 1, 0]);
    let origin = PgPoint::new([1, 0, 0]);
    let mirror = PgLine::new([0, 1, 0]);
    let p1_t = involution(&origin, &mirror, &p1);
    let p2_t = involution(&origin, &mirror, &p2);
    let p3_t = involution(&origin, &mirror, &p3);
    let p4_t = involution(&origin, &mirror, &p4);
    let line = p1.meet(&p2);
    assert!(line.incident(&p1_t));
    assert!(line.incident(&p2_t));
    assert!(line.incident(&p3_t));
    assert!(line.incident(&p4_t));
}

#[test]
fn test_menelaus_theorem() {
    let a = PgPoint::new([0, 0, 1]);
    let b = PgPoint::new([4, 0, 1]);
    let c = PgPoint::new([0, 3, 1]);
    let transversal = PgLine::new([1, -1, 0]);
    let d = a.meet(&b).meet(&transversal);
    let e = b.meet(&c).meet(&transversal);
    let f = c.meet(&a).meet(&transversal);
    assert!(coincident(&d, &e, &f));
}

// Scenarios and laws on concrete values.

#[test]
fn collinear_points_at_infinity_and_their_harmonic_conjugate() {
    let a = PgPoint::new([1, 0, 0]);
    let b = PgPoint::new([0, 1, 0]);
    let c = PgPoint::new([1, 1, 0]);
    let line = PgLine::new([0, 0, 1]);
    assert!(coincident(&a, &b, &c));
    assert!(a.incident(&line) && b.incident(&line) && c.incident(&line));
    assert_eq!(a.meet(&b), line);
    assert_eq!(harm_conj(&a, &b, &c), PgPoint::new([-1, 1, 0]));
}

#[test]
fn axis_lines_meet_at_origin() {
    let l1 = PgLine::new([1, 0, 0]);
    let l2 = PgLine::new([0, 1, 0]);
    assert_eq!(l1.meet(&l2), PgPoint::new([0, 0, 1]));
    assert_eq!(l1.meet(&l2).coord, [0, 0, 1]);
}

#[test]
fn euclidean_orthocenter_scenario() {
    let triangle = [
        EuclidPoint::new([0, 0, 1]),
        EuclidPoint::new([2, 0, 1]),
        EuclidPoint::new([1, 3, 1]),
    ];
    assert_eq!(orthocenter(&triangle), EuclidPoint::new([3, 1, 3]));
    assert_eq!(euclid_object::orthocenter(&triangle), EuclidPoint::new([3, 1, 3]));
}

#[test]
fn euclidean_reflection_scenario() {
    let p = EuclidPoint::new([1, 2, 1]);
    let mirror = EuclidLine::new([1, 0, 0]);
    assert_eq!(reflect(&mirror, &p), EuclidPoint::new([-1, 2, 1]));
    let p2 = EuclidPoint::new([3, 3, 1]);
    let mirror2 = EuclidLine::new([0, 1, -2]);
    assert_eq!(reflect(&mirror2, &p2), EuclidPoint::new([3, 1, 1]));
}

#[test]
fn scale_invariance_on_values() {
    for k in [-3i64, -1, 2, 7] {
        let t = [4i64, -5, 6];
        let kt = [k * t[0], k * t[1], k * t[2]];
        assert_eq!(PgPoint::new(t), PgPoint::new(kt));
        assert_eq!(HyperbolicLine::new(t), HyperbolicLine::new(kt));
    }
    assert_ne!(PgPoint::new([4, -5, 6]), PgPoint::new([4, -5, 7]));
}

#[test]
fn meet_and_incidence_symmetry_on_values() {
    let p = PgPoint::new([3, -1, 4]);
    let q = PgPoint::new([1, 5, -9]);
    let l = PgLine::new([2, 6, -5]);
    assert_eq!(p.meet(&q), q.meet(&p));
    assert_eq!(p.incident(&l), l.incident(&p));
    let m = p.meet(&q);
    assert!(m.incident(&p) && m.incident(&q));
    assert!(check_axiom(&p, &q, &l));
    assert!(check_axiom2(&p, &q, &l, 3, -2));
}

#[test]
fn polarity_involution_on_values() {
    let p = MyCKPoint::new([3, -2, 5]);
    assert_eq!(p.perp().perp(), p);
    assert_eq!(p.perp().perp().coord, [6, -4, 10]);
    let h = HyperbolicPoint::new([3, -2, 5]);
    assert_eq!(h.perp().coord, [3, -2, -5]);
    assert_eq!(h.perp().perp(), h);
    let e = EllipticLine::new([3, -2, 5]);
    assert_eq!(e.perp().perp(), e);
}

#[test]
fn euclidean_polarity_is_not_an_involution_on_points() {
    let p = EuclidPoint::new([3, -2, 5]);
    assert_eq!(p.perp().coord, [0, 0, 1]);
    assert_eq!(p.perp().perp().coord, [0, 0, 0]);
}

#[test]
fn harmonic_involution_on_values() {
    let a = PgPoint::new([1, 2, 1]);
    let b = PgPoint::new([3, 1, 2]);
    let c = a.parametrize(2, &b, -5);
    let d = harm_conj(&a, &b, &c);
    assert_ne!(d, c);
    assert_eq!(harm_conj(&a, &b, &d), c);
}

#[test]
fn desargues_equivalence_on_values() {
    let tri1 = [PgPoint::new([0, 0, 1]), PgPoint::new([1, 0, 1]), PgPoint::new([0, 1, 1])];
    let tri2 = [PgPoint::new([0, 0, 2]), PgPoint::new([2, 0, 2]), PgPoint::new([0, 2, 2])];
    assert!(persp(&tri1, &tri2));
    assert!(persp(&tri_dual(&tri1), &tri_dual(&tri2)));
    assert!(check_desargue(&tri1, &tri2));
    let tri3 = [PgPoint::new([1, 2, 1]), PgPoint::new([5, 1, 1]), PgPoint::new([2, 7, 1])];
    assert_eq!(persp(&tri1, &tri3), persp(&tri_dual(&tri1), &tri_dual(&tri3)));
    assert!(check_desargue(&tri1, &tri3));
}

#[test]
fn orthocenter_concurrency_on_values() {
    let triangle = [
        HyperbolicPoint::new([1, 2, 5]),
        HyperbolicPoint::new([-3, 1, 4]),
        HyperbolicPoint::new([2, -2, 7]),
    ];
    let [t_1, t_2, t_3] = tri_altitude(&triangle);
    assert!(coincident(&t_1, &t_2, &t_3));
    let o = orthocenter(&triangle);
    assert!(t_3.incident(&o));
}

#[test]
fn pappus_on_two_lines() {
    let coline_1 = [PgPoint::new([0, 0, 1]), PgPoint::new([1, 0, 1]), PgPoint::new([2, 0, 1])];
    let coline_2 = [PgPoint::new([0, 1, 1]), PgPoint::new([1, 1, 1]), PgPoint::new([2, 1, 1])];
    assert!(check_pappus(&coline_1, &coline_2));
}

#[test]
fn altitude_and_perpendicular_lines() {
    let p = EuclidPoint::new([1, 2, 1]);
    let l = EuclidLine::new([1, 0, -1]);
    assert_eq!(altitude(&p, &l), EuclidLine::new([0, 1, -2]));
    assert_eq!(l.altitude(&p), EuclidLine::new([0, 1, -2]));
    let l2 = EuclidLine::new([0, 1, -1]);
    assert!(is_perpendicular(&l, &l2));
    assert!(l.is_perpendicular(&l2));
    assert!(!l.is_perpendicular(&EuclidLine::new([1, 1, -1])));
    assert!(l.is_parallel(&EuclidLine::new([2, 0, -5])));
    assert!(!l.is_parallel(&l2));
}

#[test]
fn euclidean_tri_altitude_values() {
    let triangle = [
        EuclidPoint::new([0, 0, 1]),
        EuclidPoint::new([2, 0, 1]),
        EuclidPoint::new([1, 3, 1]),
    ];
    let alts = euclid_object::tri_altitude(&triangle);
    assert_eq!(alts[0], EuclidLine::new([-1, 3, 0]));
    assert_eq!(alts[1], EuclidLine::new([1, 3, -2]));
    assert_eq!(alts[2], EuclidLine::new([2, 0, -2]));
}

#[test]
fn midpoints() {
    let p1 = EuclidPoint::new([0, 0, 1]);
    let p2 = EuclidPoint::new([2, 4, 1]);
    assert_eq!(p1.midpoint(&p2), EuclidPoint::new([1, 2, 1]));
    let q1 = PerspPoint::new([1, 1, 1]);
    let q2 = PerspPoint::new([3, 3, 1]);
    assert_eq!(q1.midpoint(&q2), PerspPoint::new([-2, -2, -2]));
    assert!(!PerspLine::new([1, 2, 3]).is_parallel(&PerspLine::new([1, 2, 5])));
}

#[test]
fn planar_products() {
    assert_eq!(dot1(&[1, 2], &[3, 4]), 11);
    assert_eq!(cross2(&[1, 2, 3], &[3, 4, 5]), -2);
}

#[test]
fn involution_reflects_across_mirror() {
    let origin = PgPoint::new([0, 0, 1]);
    let mirror = PgLine::new([1, 0, -1]);
    let p = PgPoint::new([2, 0, 1]);
    assert_eq!(involution(&origin, &mirror, &p), PgPoint::new([-8, 0, -12]));
}

#[test]
fn perspective_altitudes_concur() {
    let triangle = [
        PerspPoint::new([1, 2, 5]),
        PerspPoint::new([-3, 1, 4]),
        PerspPoint::new([2, -2, 7]),
    ];
    let [t_1, t_2, t_3] = tri_altitude(&triangle);
    assert!(coincident(&t_1, &t_2, &t_3));
    let e = [
        EuclidPoint::new([1, 2, 5]),
        EuclidPoint::new([-3, 1, 4]),
        EuclidPoint::new([2, -2, 7]),
    ];
    let [u_1, u_2, u_3] = tri_altitude(&e);
    assert!(coincident(&u_1, &u_2, &u_3));
}
