use impulse::layer3::{Class, Ipv4Address, Layer3};
use impulse::layer_two::{mac_address_from, LayerTwo};

fn check_generated(class: Class, a: u8, b: u8, c: u8) {
    let generated = class.generate();
    assert_eq!(generated.len(), 256);
    assert_eq!(generated.capacity(), 256);
    for address in generated.iter() {
        let test_address = Ipv4Address::new(a, b, c, address.octets()[3]);
        assert!(address.is_private());
        assert!(!address.is_broadcast());
        assert!(!address.is_documentation());
        assert!(!address.is_link_local());
        assert!(!address.is_multicast());
        assert_eq!(address, &test_address);
    }
}

fn fill(layer3: &mut Layer3) {
    while layer3.assigned().len() < 256 {
        let _ = layer3.allocate_address();
    }
}

#[test]
fn class_a_subnet_mask() {
    assert_eq!(Class::A.subnet_mask().to_string().as_str(), "255.0.0.0");
}

#[test]
fn class_b_subnet_mask() {
    assert_eq!(Class::B.subnet_mask().to_string().as_str(), "255.255.0.0");
}

#[test]
fn class_c_subnet_mask() {
    assert_eq!(Class::C.subnet_mask().to_string().as_str(), "255.255.255.0");
}

#[test]
fn class_a_generate() {
    check_generated(Class::A, 10, 10, 10);
}

#[test]
fn class_b_generate() {
    check_generated(Class::B, 172, 31, 10);
}

#[test]
fn class_c_generate() {
    check_generated(Class::C, 192, 168, 10);
}

#[test]
fn layer3_init() {
    let test_layer3 = Layer3::init();
    assert!(!test_layer3.dhcp_enabled());
    assert_eq!(test_layer3.class(), Class::B);
    assert_eq!(test_layer3.subnet_mask().to_string().as_str(), "255.255.0.0");
    assert_eq!(test_layer3.pool().len(), 256);
    assert_eq!(test_layer3.pool().capacity(), 256);
    assert_eq!(test_layer3.assigned().len(), 0);
    assert_eq!(test_layer3.assigned().capacity(), 256);
}

#[test]
fn allocate_address() {
    let mut test_layer3 = Layer3::init();
    assert_eq!(test_layer3.pool().len(), 256);
    assert_eq!(test_layer3.assigned().len(), 0);
    for expected in 1..5 {
        let address = test_layer3.allocate_address().unwrap();
        assert!(test_layer3.pool().contains(&address));
        assert_eq!(test_layer3.assigned().len(), expected);
    }
}

#[test]
fn allocate_address_error() {
    let mut test_layer3 = Layer3::init();
    assert_eq!(test_layer3.pool().len(), 256);
    assert_eq!(test_layer3.assigned().len(), 0);
    fill(&mut test_layer3);
    assert_eq!(test_layer3.assigned().len(), 256);
    for _ in 0..4 {
        let error = test_layer3.allocate_address().unwrap_err();
        assert_eq!(error.details, "The address pool is exhausted");
        assert_eq!(test_layer3.assigned().len(), 256);
    }
}

#[test]
fn reclaim_address() {
    let mut test_layer3 = Layer3::init();
    fill(&mut test_layer3);
    assert_eq!(test_layer3.assigned().len(), 256);
    let test_cloned_pool = test_layer3.pool().clone();
    for address in &test_cloned_pool {
        test_layer3.reclaim_address(address);
    }
    assert_eq!(test_layer3.assigned().len(), 0);
    assert!(test_layer3.allocate_address().is_ok());
}

#[test]
fn reclaim_is_idempotent() {
    let mut layer3 = Layer3::init();
    let address = layer3.allocate_address().unwrap();
    layer3.reclaim_address(&address);
    layer3.reclaim_address(&address);
    assert_eq!(layer3.assigned().len(), 0);
    assert_eq!(layer3.pool().len(), 256);
}

#[test]
fn choose_random_address() {
    let test_layer3 = Layer3::init();
    assert_eq!(test_layer3.pool().len(), 256);
    assert_eq!(test_layer3.pool().capacity(), 256);
    let test_random_address = test_layer3.choose_random_address();
    assert!(test_random_address.is_private());
}

#[test]
fn address_text_and_ranges() {
    assert_eq!(Ipv4Address::new(10, 0, 7, 255).to_string(), "10.0.7.255");
    assert!(Ipv4Address::new(255, 255, 255, 255).is_broadcast());
    assert!(Ipv4Address::new(198, 51, 100, 3).is_documentation());
    assert!(Ipv4Address::new(169, 254, 1, 1).is_link_local());
    assert!(Ipv4Address::new(239, 1, 1, 1).is_multicast());
    assert!(!Ipv4Address::new(172, 32, 0, 1).is_private());
    assert!(Ipv4Address::new(172, 16, 0, 1).is_private());
}

#[test]
fn layer_two_init() {
    let mut test_layer_two = LayerTwo::init();
    assert_eq!(test_layer_two.generate_mac_address().len(), 17);
}

#[test]
fn generate_mac_address() {
    let mut test_layer_two = LayerTwo::init();
    let test_mac_address = test_layer_two.generate_mac_address();
    assert_eq!(test_mac_address.len(), 17);
}

#[test]
fn generate_digit() {
    let mut test_layer_two = LayerTwo::init();
    let (test_digit_one, test_digit_two) = test_layer_two.generate_digit();
    assert_eq!(test_digit_one.len(), 1);
    assert_eq!(test_digit_two.len(), 1);
}

#[test]
fn mac_addresses_have_the_shape() {
    let mut layer_two = LayerTwo::init();
    for _ in 0..200 {
        let mac = layer_two.generate_mac_address();
        let chars: Vec<char> = mac.chars().collect();
        assert_eq!(chars.len(), 17);
        assert_eq!(chars[1], '2');
        for (i, c) in chars.iter().enumerate() {
            if i % 3 == 2 {
                assert_eq!(*c, ':');
            } else {
                assert!(c.is_ascii_digit() || ('A'..='F').contains(c));
            }
        }
    }
}

#[test]
fn mac_address_from_digits() {
    let digits = vec![15, 0, 1, 10, 11, 2, 3, 12, 13, 4, 14];
    assert_eq!(mac_address_from(&digits), "F2:01:AB:23:CD:4E");
}

#[test]
fn allocation_hands_out_the_first_free_draw() {
    let mut layer3 = Layer3::init();
    let first = Ipv4Address::new(172, 31, 10, 5);
    let second = Ipv4Address::new(172, 31, 10, 9);
    assert_eq!(layer3.allocate_from_draws(&vec![first]).unwrap(), first);
    let taken = layer3.allocate_from_draws(&vec![first, first, second, first]).unwrap();
    assert_eq!(taken, second);
    assert_eq!(layer3.assigned(), &vec![first, second]);
}

#[test]
fn allocation_with_only_taken_draws_is_exhausted() {
    let mut layer3 = Layer3::init();
    let only = Ipv4Address::new(172, 31, 10, 200);
    layer3.allocate_from_draws(&vec![only]).unwrap();
    let error = layer3.allocate_from_draws(&vec![only, only, only]).unwrap_err();
    assert_eq!(error.details, "The address pool is exhausted");
    assert!(layer3.allocate_from_draws(&vec![]).is_err());
    assert_eq!(layer3.assigned().len(), 1);
}

#[test]
fn first_allocation_always_succeeds() {
    for _ in 0..50 {
        let mut layer3 = Layer3::init();
        assert!(layer3.allocate_address().is_ok());
    }
}
