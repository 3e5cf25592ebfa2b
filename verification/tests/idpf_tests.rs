use idpf::{Field64, Idpf, IdpfError, Seed};
use rand::{thread_rng, Rng};

#[test]
fn on_path() {
    let mut rng = thread_rng();
    let idpf = Idpf::new(&rng.gen());

    let alpha = std::iter::repeat_with(|| rng.gen())
        .take(137)
        .collect::<Vec<bool>>();
    let beta = Field64::from(1337);
    let (cw, [k0, k1]) = idpf.gen(&alpha, beta).unwrap();

    for i in 1..alpha.len() + 1 {
        let (s0, w0) = idpf.eval(&cw, &k0, false, &alpha[..i]).unwrap();
        let (s1, w1) = idpf.eval(&cw, &k1, true, &alpha[..i]).unwrap();
        assert_ne!(s0, s1);
        assert_eq!(beta, w0.add(w1));
    }
}

#[test]
fn off_path() {
    let mut rng = thread_rng();
    let idpf = Idpf::new(&rng.gen());
    let alpha = std::iter::repeat_with(|| rng.gen())
        .take(137)
        .collect::<Vec<bool>>();
    let beta = Field64::from(1337);
    let (cw, [k0, k1]) = idpf.gen(&alpha, beta).unwrap();

    let path = alpha.iter().copied().map(|bit| !bit).collect::<Vec<bool>>();
    for i in 1..path.len() + 1 {
        let (s0, w0) = idpf.eval(&cw, &k0, false, &path[..i]).unwrap();
        let (s1, w1) = idpf.eval(&cw, &k1, true, &path[..i]).unwrap();
        assert_eq!(s0, s1);
        assert_eq!(Field64::from(0), w0.add(w1));
    }
}

#[test]
fn partial_path() {
    let mut rng = thread_rng();
    let idpf = Idpf::new(&rng.gen());
    let alpha = std::iter::repeat_with(|| rng.gen())
        .take(5)
        .collect::<Vec<bool>>();
    let beta = Field64::from(1337);
    let (cw, [k0, k1]) = idpf.gen(&alpha, beta).unwrap();

    for j in 0..alpha.len() {
        // on path until a certain level `j`
        let mut path = alpha.clone();
        path[j] = !path[j];
        for i in 1..j + 1 {
            let (s0, w0) = idpf.eval(&cw, &k0, false, &path[..i]).unwrap();
            let (s1, w1) = idpf.eval(&cw, &k1, true, &path[..i]).unwrap();
            assert_ne!(s0, s1);
            assert_eq!(beta, w0.add(w1));
        }

        for i in j + 1..path.len() + 1 {
            let (s0, w0) = idpf.eval(&cw, &k0, false, &path[..i]).unwrap();
            let (s1, w1) = idpf.eval(&cw, &k1, true, &path[..i]).unwrap();
            assert_eq!(s0, s1);
            assert_eq!(Field64::from(0), w0.add(w1));
        }
    }
}

#[test]
fn gen_emits_one_word_per_level() {
    let mut rng = thread_rng();
    let idpf = Idpf::new(&rng.gen());
    let beta = Field64::from(7);
    for len in [1usize, 2, 5, 64, 137] {
        let alpha = std::iter::repeat_with(|| rng.gen())
            .take(len)
            .collect::<Vec<bool>>();
        let (cw, _keys) = idpf.gen(&alpha, beta).unwrap();
        assert_eq!(cw.len(), len);
    }
}

#[test]
fn single_bit_point_function() {
    let mut rng = thread_rng();
    let idpf = Idpf::new(&rng.gen());
    let alpha = vec![true];
    let beta = Field64::from(1337);
    let (cw, [k0, k1]) = idpf.gen(&alpha, beta).unwrap();

    let (s0, w0) = idpf.eval(&cw, &k0, false, &[true]).unwrap();
    let (s1, w1) = idpf.eval(&cw, &k1, true, &[true]).unwrap();
    assert_ne!(s0, s1);
    assert_eq!(Field64::from(1337), w0.add(w1));

    let (t0, v0) = idpf.eval(&cw, &k0, false, &[false]).unwrap();
    let (t1, v1) = idpf.eval(&cw, &k1, true, &[false]).unwrap();
    assert_eq!(t0, t1);
    assert_eq!(Field64::from(0), v0.add(v1));
}

#[test]
fn five_bit_path_all_levels() {
    let mut rng = thread_rng();
    let idpf = Idpf::new(&rng.gen());
    // MSB first: 10110
    let alpha = vec![true, false, true, true, false];
    let beta = Field64::from(1);
    let (cw, [k0, k1]) = idpf.gen(&alpha, beta).unwrap();

    let off = alpha.iter().copied().map(|bit| !bit).collect::<Vec<bool>>();
    for l in 1..6 {
        let (_, w0) = idpf.eval(&cw, &k0, false, &alpha[..l]).unwrap();
        let (_, w1) = idpf.eval(&cw, &k1, true, &alpha[..l]).unwrap();
        assert_eq!(Field64::from(1), w0.add(w1));

        let (u0, x0) = idpf.eval(&cw, &k0, false, &off[..l]).unwrap();
        let (u1, x1) = idpf.eval(&cw, &k1, true, &off[..l]).unwrap();
        assert_eq!(u0, u1);
        assert_eq!(Field64::from(0), x0.add(x1));
    }
}

#[test]
fn flipped_bit_partial_paths() {
    let mut rng = thread_rng();
    let idpf = Idpf::new(&rng.gen());
    let alpha = std::iter::repeat_with(|| rng.gen())
        .take(137)
        .collect::<Vec<bool>>();
    let beta = Field64::from(1337);
    let (cw, [k0, k1]) = idpf.gen(&alpha, beta).unwrap();

    for j in 0..alpha.len() {
        let mut path = alpha.clone();
        path[j] = !path[j];
        // Check the boundary prefix lengths around the divergence level
        // j, plus the shortest and the longest prefix.
        let mut lens = vec![1, j, j + 1, path.len()];
        lens.retain(|&l| 1 <= l && l <= path.len());
        for l in lens {
            let (s0, w0) = idpf.eval(&cw, &k0, false, &path[..l]).unwrap();
            let (s1, w1) = idpf.eval(&cw, &k1, true, &path[..l]).unwrap();
            if l <= j {
                assert_ne!(s0, s1);
                assert_eq!(beta, w0.add(w1));
            } else {
                assert_eq!(s0, s1);
                assert_eq!(Field64::from(0), w0.add(w1));
            }
        }
    }
}

#[test]
fn distinct_fixed_keys_give_distinct_tapes() {
    let idpf_a = Idpf::new(&[17u8; 16]);
    let idpf_b = Idpf::new(&[18u8; 16]);
    let alpha = vec![true, true, false, true];
    let beta = Field64::from(99);
    let k0 = Seed::from_bytes([1u8; 16]);
    let k1 = Seed::from_bytes([2u8; 16]);

    let tape_a = idpf_a.gen_with_keys(&alpha, beta, &k0, &k1);
    let tape_b = idpf_b.gen_with_keys(&alpha, beta, &k0, &k1);
    assert_ne!(tape_a, tape_b);

    // With the same fixed key the tape is a deterministic function of
    // (alpha, beta, k0, k1).
    let idpf_a_again = Idpf::new(&[17u8; 16]);
    let tape_a_again = idpf_a_again.gen_with_keys(&alpha, beta, &k0, &k1);
    assert_eq!(tape_a, tape_a_again);
}

#[test]
fn gen_distinct_root_seeds() {
    let mut rng = thread_rng();
    let idpf = Idpf::new(&rng.gen());
    let alpha = vec![true, false];
    let (_, [k0, k1]) = idpf.gen(&alpha, Field64::from(5)).unwrap();
    assert_ne!(k0, k1);
}

#[test]
fn eval_empty_prefix_is_domain_error() {
    let mut rng = thread_rng();
    let idpf = Idpf::new(&rng.gen());
    let alpha = vec![true, false, true];
    let (cw, [k0, _k1]) = idpf.gen(&alpha, Field64::from(42)).unwrap();
    let r = idpf.eval(&cw, &k0, false, &[]);
    assert_eq!(r, Err(IdpfError::Domain));
}

#[test]
fn eval_long_prefix_is_domain_error() {
    let mut rng = thread_rng();
    let idpf = Idpf::new(&rng.gen());
    let alpha = vec![true, false, true];
    let (cw, [_k0, k1]) = idpf.gen(&alpha, Field64::from(42)).unwrap();
    let r = idpf.eval(&cw, &k1, true, &[true, false, true, false]);
    assert_eq!(r, Err(IdpfError::Domain));
}

fn correction_word_histograms(idpf: &Idpf, alpha: &[bool], samples: usize) -> ([u64; 16], [u64; 4]) {
    let beta = Field64::from(1337);
    let mut nibbles = [0u64; 16];
    let mut bit_pairs = [0u64; 4];
    for _ in 0..samples {
        let (cw, _keys) = idpf.gen(alpha, beta).unwrap();
        for word in &cw {
            nibbles[(word.seed().to_bytes()[1] & 0x0F) as usize] += 1;
            let b = word.bits();
            bit_pairs[usize::from(b[0]) | (usize::from(b[1]) << 1)] += 1;
        }
    }
    (nibbles, bit_pairs)
}

fn two_sample_chi_square(a: &[u64], b: &[u64]) -> f64 {
    let mut chi = 0.0f64;
    for i in 0..a.len() {
        let total = (a[i] + b[i]) as f64;
        if total > 0.0 {
            let diff = a[i] as f64 - b[i] as f64;
            chi += diff * diff / total;
        }
    }
    chi
}

#[test]
fn correction_words_independent_of_alpha() {
    // Swapping alpha in Gen must not change the marginal distribution
    // of the correction words: over many samples with fresh random
    // keys, compare a byte of the seed correction and the control-bit
    // pair for two opposite alphas. Each statistic has at most 15
    // degrees of freedom; for identical distributions the two-sample
    // chi-square stays near that, so the generous bounds below fail
    // only with negligible probability, while a genuine dependence on
    // alpha would push the statistic into the hundreds.
    let idpf = Idpf::new(&[21u8; 16]);
    let alpha_a = vec![false, false, false, false];
    let alpha_b = vec![true, true, true, true];
    let samples: usize = 2000;
    let (nib_a, bits_a) = correction_word_histograms(&idpf, &alpha_a, samples);
    let (nib_b, bits_b) = correction_word_histograms(&idpf, &alpha_b, samples);
    assert!(two_sample_chi_square(&nib_a, &nib_b) < 80.0);
    assert!(two_sample_chi_square(&bits_a, &bits_b) < 40.0);
}

#[test]
fn gen_empty_path_is_domain_error() {
    let mut rng = thread_rng();
    let idpf = Idpf::new(&rng.gen());
    let r = idpf.gen(&[], Field64::from(42));
    assert!(matches!(r, Err(IdpfError::Domain)));
}
