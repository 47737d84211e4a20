use ndarray::Array;
use ndarray_rand::rand_distr::Normal;
use ndarray_rand::RandomExt;

fn target_func(x: f64, p: [f64; 2]) -> f64 {
    p[0] * x + p[1]
}

#[test]
fn simple_test() {
    let xdata = Array::linspace(0., 4., 50);
    let y = xdata.map(|&x| target_func(x, [2.5, 1.3]));
    let normal = Normal::new(0.0, 1.0).unwrap();
    let y_noise = Array::random_using(xdata.shape(), normal, &mut rand::thread_rng());
    let y_data = y + y_noise;
    println!("y data:\n{:?}", y_data);
    assert_eq!(y_data.len(), 50);
}
