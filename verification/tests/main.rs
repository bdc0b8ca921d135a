use math_lib::vector_3d::Vector3d;

#[test]
fn test_iter() {
    let vec = Vector3d::new(1.0, 2.0, 3.0);
    let mut iterator = vec.iter();
    let mut seen: Vec<f64> = Vec::new();
    while let Some(x) = iterator.next() {
        println!("{}", x);
        seen.push(*x);
    }
    assert_eq!(seen, vec![1.0, 2.0, 3.0]);

    println!("{}", vec.i);
    println!("{}", vec.j);
}

#[test]
fn test_into_iter() {
    let vec = Vector3d::new(1.0, 2.0, 3f32);
    let mut into = vec.into_iter();
    let mut seen: Vec<f32> = Vec::new();
    while let Some(x) = into.next() {
        println!("{}", x);
        seen.push(x);
    }
    assert_eq!(seen, vec![1.0, 2.0, 3.0]);
}

#[test]
fn test_mut_iter() {
    let mut vec = Vector3d::new(1f32, 2f32, 3f32);
    {
        let mut iterator = vec.iter_mut();
        while let Some(x) = iterator.next() {
            *x = *x + 1.0;
        }
    }
    assert_eq!(vec, Vector3d::new(2f32, 3f32, 4f32));
}
