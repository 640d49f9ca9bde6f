use dasp_graph::BUFFER_LEN;
use dasp_graph::Buffer;
use dasp_graph::Input;

#[test]
fn silent_buffer_is_all_zero() {
    let b = Buffer::silent();
    assert_eq!(b.len(), BUFFER_LEN);
    for i in 0..b.len() {
        assert_eq!(b.sample(i), 0);
    }
}

#[test]
fn from_samples_keeps_the_samples() {
    let mut samples = [0i64; 64];
    for (i, s) in samples.iter_mut().enumerate() {
        *s = (i * i) as i64;
    }
    let b = Buffer::from_samples(samples);
    for i in 0..b.len() {
        assert_eq!(b.sample(i), (i * i) as i64);
    }
}

#[test]
fn set_sample_updates_one_position() {
    let mut b = Buffer::silent();
    b.set_sample(10, -7);
    for i in 0..b.len() {
        if i == 10 {
            assert_eq!(b.sample(i), -7);
        } else {
            assert_eq!(b.sample(i), 0);
        }
    }
}

#[test]
fn silence_overwrites_every_sample() {
    let mut b = Buffer::from_samples([99i64; 64]);
    b.silence();
    for i in 0..b.len() {
        assert_eq!(b.sample(i), 0);
    }
}

#[test]
fn input_carries_its_buffers() {
    let a = Buffer::from_samples([1i64; 64]);
    let b = Buffer::from_samples([2i64; 64]);
    let input = Input::new(vec![a, b]);
    let bufs = input.buffers();
    assert_eq!(bufs.len(), 2);
    assert_eq!(bufs[0].sample(0), 1);
    assert_eq!(bufs[1].sample(0), 2);
}

#[test]
fn input_may_be_empty() {
    let input = Input::new(Vec::new());
    assert_eq!(input.buffers().len(), 0);
}
