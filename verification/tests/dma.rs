use rustboy::dma::DMA;
use rustboy::dma::DMA_CYCLES;

#[test]
fn initialize() {
    let mut dma = DMA::new();

    dma.initialize(0xC1);

    assert_eq!(dma.source, 0xC1);
    assert_eq!(dma.offset, 0);
    assert_eq!(dma.running, true);

    dma.initialize(0xA1);

    assert_eq!(dma.source, 0xC1);
}

#[test]
fn emulate() {
    let mut dma = DMA::new();

    dma.initialize(0xC1);

    let address = dma.emulate();

    assert_eq!(address, Some(0xC100));
    assert_eq!(dma.running, true);

    let address = dma.emulate();

    assert_eq!(address, Some(0xC101));
    assert_eq!(dma.running, true);
}

#[test]
fn emulate_stop_after_complete() {
    let mut dma = DMA::new();

    dma.initialize(0xC1);

    for _ in 0..DMA_CYCLES {
        let address = dma.emulate();

        assert_eq!(address.is_some(), true);
    }

    let address = dma.emulate();

    assert_eq!(address, None);
    assert_eq!(dma.running, false);
}

#[test]
fn transfer_addresses_cover_one_page_row() {
    let mut dma = DMA::new();
    dma.initialize(0xC1);

    for i in 0..160u16 {
        assert_eq!(dma.emulate(), Some(0xC100 + i));
    }

    assert_eq!(dma.emulate(), None);
    assert_eq!(dma.running, false);

    // A second transfer can start once the first has completed
    dma.initialize(0xA1);
    assert_eq!(dma.emulate(), Some(0xA100));
}

#[test]
fn initialize_mid_transfer_is_ignored() {
    let mut dma = DMA::new();
    dma.initialize(0xC1);

    for _ in 0..10 {
        dma.emulate();
    }
    dma.initialize(0xA1);

    assert_eq!(dma.source, 0xC1);
    assert_eq!(dma.emulate(), Some(0xC10A));
}
