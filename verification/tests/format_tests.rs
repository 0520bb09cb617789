use neural_network::activation::Activation;
use neural_network::fmt::{fmt_fixed2, fmt_fixed4, fmt_u64, fmt_usize};
use neural_network::network::Network;
use neural_network::svg::generate_svg;
use neural_network::text::str_eq;

fn b(x: f64) -> u64 {
    x.to_bits()
}

#[test]
fn test_fmt_u64() {
    assert_eq!(fmt_u64(0), "0");
    assert_eq!(fmt_u64(7), "7");
    assert_eq!(fmt_u64(10), "10");
    assert_eq!(fmt_u64(12345), "12345");
    assert_eq!(fmt_u64(u64::MAX), "18446744073709551615");
    assert_eq!(fmt_usize(800), "800");
}

#[test]
fn test_fmt_fixed() {
    assert_eq!(fmt_fixed4(-12345), "-1.2345");
    assert_eq!(fmt_fixed4(50), "0.0050");
    assert_eq!(fmt_fixed4(0), "0.0000");
    assert_eq!(fmt_fixed4(10000), "1.0000");
    assert_eq!(fmt_fixed2(350), "3.50");
    assert_eq!(fmt_fixed2(-5), "-0.05");
}

#[test]
fn test_str_eq() {
    assert!(str_eq("sigmoid", "sigmoid"));
    assert!(!str_eq("sigmoid", "sigmoi"));
    assert!(!str_eq("a", "b"));
    assert!(str_eq("", ""));
}

#[test]
fn test_examples_listing() {
    let names = neural_network::examples::list_examples();
    assert_eq!(names, vec!["and", "or", "xor"]);
    let and = neural_network::examples::get_example("and").unwrap();
    assert_eq!(and.recommended_arch, vec![2, 3, 1]);
    assert_eq!(and.inputs.len(), 4);
    assert_eq!(
        and.targets,
        vec![vec![b(0.0)], vec![b(0.0)], vec![b(0.0)], vec![b(1.0)]]
    );
    assert!(neural_network::examples::get_example("nand").is_none());
}

#[test]
fn test_should_log_epoch() {
    assert!(Network::should_log_epoch(1, 50));
    assert!(Network::should_log_epoch(37, 99));
    assert!(Network::should_log_epoch(10, 1000));
    assert!(!Network::should_log_epoch(15, 1000));
}

#[test]
fn test_generate_svg() {
    let net = Network::new_seeded(vec![2, 3, 1], Activation::Sigmoid, b(0.5), 4).unwrap();
    let svg = generate_svg(&net, 1200, 800, false);
    assert!(svg.starts_with("<?xml"));
    assert!(svg.ends_with("</svg>"));
    assert!(svg.contains("Weight: "));
    assert!(svg.contains("<circle"));
    assert!(svg.contains("Layer 0: Input"));
    assert!(svg.contains("Layer 2: Output"));
    // 2*3 + 3*1 weight lines, plus the two legend strokes.
    assert_eq!(svg.matches("<line x1=").count(), 11);

    let with_values = generate_svg(&net, 1200, 800, true);
    assert!(with_values.len() >= svg.len());
}
