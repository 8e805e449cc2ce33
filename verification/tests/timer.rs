use rugby::arch::reg::{Port, Register};
use rugby::parts::timer::{Reload, Select, Timer};

#[test]
fn tima_reload_works() {
    // Configure 65536 Hz timer (64 cycles)
    let mut timer = Timer::new();
    timer.reg.tac.store(0b110);
    timer.reg.tma.store(0xfe);
    timer.reg.tima.store(0xfe);

    for _ in 0..64 {
        assert_eq!(timer.reg.tima.load(), 0xfe);
        timer.cycle();
    } // increment -> 0xff
    for _ in 0..64 {
        assert_eq!(timer.reg.tima.load(), 0xff);
        timer.cycle();
    } // overflow  -> 0x00
    for _ in 0..4 {
        assert_eq!(timer.reg.tima.load(), 0x00);
        timer.cycle();
    } // reload    -> 0xfe
    for _ in 4..64 {
        assert_eq!(timer.reg.tima.load(), 0xfe);
        timer.cycle();
    } // increment -> 0xff
    for _ in 0..64 {
        assert_eq!(timer.reg.tima.load(), 0xff);
        timer.cycle();
    } // overflow  -> 0x00
    for _ in 0..4 {
        assert_eq!(timer.reg.tima.load(), 0x00);
        timer.cycle();
    } // reload    -> 0xfe
    for _ in 4..64 {
        assert_eq!(timer.reg.tima.load(), 0xfe);
        timer.cycle();
    } // increment -> 0xff
    assert_eq!(timer.reg.tima.load(), 0xff);
}

#[test]
fn tima_write_reloading_working() {
    // Test 1
    {
        // Configure 65536 Hz timer (64 cycles)
        let mut timer = Timer::new();
        timer.reg.tac.store(0b110);
        timer.reg.tma.store(0xfe);
        timer.reg.tima.store(0xfe);

        for _ in 0..64 {
            assert_eq!(timer.reg.tima.load(), 0xfe);
            timer.cycle();
        } // increment -> 0xff
        for _ in 0..64 {
            assert_eq!(timer.reg.tima.load(), 0xff);
            timer.cycle();
        } // overflow  -> 0x00
        timer.reg.tima.store(0xfd);
        //   overwrite -> 0xfd
        for _ in 0..64 {
            assert_eq!(timer.reg.tima.load(), 0xfd);
            timer.cycle();
        } // increment -> 0xfe
        assert_eq!(timer.reg.tima.load(), 0xfe);
    }

    // Test 2
    {
        // Configure 65536 Hz timer (64 cycles)
        let mut timer = Timer::new();
        timer.reg.tac.store(0b110);
        timer.reg.tma.store(0xfe);
        timer.reg.tima.store(0xfe);

        for _ in 0..64 {
            assert_eq!(timer.reg.tima.load(), 0xfe);
            timer.cycle();
        } // increment -> 0xff
        for _ in 0..64 {
            assert_eq!(timer.reg.tima.load(), 0xff);
            timer.cycle();
        } // overflow  -> 0x00
        for _ in 0..1 {
            assert_eq!(timer.reg.tima.load(), 0x00);
            timer.cycle();
        }
        timer.reg.tima.store(0xfd);
        //   overwrite -> 0xfd
        for _ in 1..64 {
            assert_eq!(timer.reg.tima.load(), 0xfd);
            timer.cycle();
        } // increment -> 0xfe
        assert_eq!(timer.reg.tima.load(), 0xfe);
    }

    // Test 3
    {
        // Configure 65536 Hz timer (64 cycles)
        let mut timer = Timer::new();
        timer.reg.tac.store(0b110);
        timer.reg.tma.store(0xfe);
        timer.reg.tima.store(0xfe);

        for _ in 0..64 {
            assert_eq!(timer.reg.tima.load(), 0xfe);
            timer.cycle();
        } // increment -> 0xff
        for _ in 0..64 {
            assert_eq!(timer.reg.tima.load(), 0xff);
            timer.cycle();
        } // overflow  -> 0x00
        for _ in 0..2 {
            assert_eq!(timer.reg.tima.load(), 0x00);
            timer.cycle();
        }
        timer.reg.tima.store(0xfd);
        //   overwrite -> 0xfd
        for _ in 2..64 {
            assert_eq!(timer.reg.tima.load(), 0xfd);
            timer.cycle();
        } // increment -> 0xfe
        assert_eq!(timer.reg.tima.load(), 0xfe);
    }

    // Test 4
    {
        // Configure 65536 Hz timer (64 cycles)
        let mut timer = Timer::new();
        timer.reg.tac.store(0b110);
        timer.reg.tma.store(0xfe);
        timer.reg.tima.store(0xfe);

        for _ in 0..64 {
            assert_eq!(timer.reg.tima.load(), 0xfe);
            timer.cycle();
        } // increment -> 0xff
        for _ in 0..64 {
            assert_eq!(timer.reg.tima.load(), 0xff);
            timer.cycle();
        } // overflow  -> 0x00
        for _ in 0..3 {
            assert_eq!(timer.reg.tima.load(), 0x00);
            timer.cycle();
        } // reloading now
        timer.reg.tima.store(0xfd); // write ignored!
        {
            assert_eq!(timer.reg.tima.load(), 0x00);
            timer.cycle();
        } // reload    -> 0xfe
        for _ in 4..64 {
            assert_eq!(timer.reg.tima.load(), 0xfe);
            timer.cycle();
        } // increment -> 0xff
        assert_eq!(timer.reg.tima.load(), 0xff);
    }

    // Test 5
    {
        // Configure 65536 Hz timer (64 cycles)
        let mut timer = Timer::new();
        timer.reg.tac.store(0b110);
        timer.reg.tma.store(0xfe);
        timer.reg.tima.store(0xfe);

        for _ in 0..64 {
            assert_eq!(timer.reg.tima.load(), 0xfe);
            timer.cycle();
        } // increment -> 0xff
        for _ in 0..64 {
            assert_eq!(timer.reg.tima.load(), 0xff);
            timer.cycle();
        } // overflow  -> 0x00
        for _ in 0..4 {
            assert_eq!(timer.reg.tima.load(), 0x00);
            timer.cycle();
        } // reload    -> 0xfe
        timer.reg.tima.store(0xfd);
        // overwrite   -> 0xfd
        for _ in 4..64 {
            assert_eq!(timer.reg.tima.load(), 0xfd);
            timer.cycle();
        } // increment -> 0xfe
        assert_eq!(timer.reg.tima.load(), 0xfe);
    }
}

#[test]
fn tma_write_reloading_working() {
    // Test 1
    {
        // Configure 65536 Hz timer (64 cycles)
        let mut timer = Timer::new();
        timer.reg.tac.store(0b110);
        timer.reg.tma.store(0xfe);
        timer.reg.tima.store(0xfe);

        for _ in 0..64 {
            assert_eq!(timer.reg.tima.load(), 0xfe);
            timer.cycle();
        } // increment -> 0xff
        for _ in 0..64 {
            assert_eq!(timer.reg.tima.load(), 0xff);
            timer.cycle();
        } // overflow  -> 0x00
        timer.reg.tma.store(0x69);
        for _ in 0..4 {
            assert_eq!(timer.reg.tima.load(), 0x00);
            timer.cycle();
        } // reload    -> 0x69
        for _ in 4..64 {
            assert_eq!(timer.reg.tima.load(), 0x69);
            timer.cycle();
        } // increment -> 0x6a
        assert_eq!(timer.reg.tima.load(), 0x6a);
    }

    // Test 2
    {
        // Configure 65536 Hz timer (64 cycles)
        let mut timer = Timer::new();
        timer.reg.tac.store(0b110);
        timer.reg.tma.store(0xfe);
        timer.reg.tima.store(0xfe);

        for _ in 0..64 {
            assert_eq!(timer.reg.tima.load(), 0xfe);
            timer.cycle();
        } // increment -> 0xff
        for _ in 0..64 {
            assert_eq!(timer.reg.tima.load(), 0xff);
            timer.cycle();
        } // overflow  -> 0x00
        for _ in 0..1 {
            assert_eq!(timer.reg.tima.load(), 0x00);
            timer.cycle();
        }
        timer.reg.tma.store(0x69);
        for _ in 1..4 {
            assert_eq!(timer.reg.tima.load(), 0x00);
            timer.cycle();
        } // reload    -> 0x69
        for _ in 4..64 {
            assert_eq!(timer.reg.tima.load(), 0x69);
            timer.cycle();
        } // increment -> 0x6a
        assert_eq!(timer.reg.tima.load(), 0x6a);
    }

    // Test 3
    {
        // Configure 65536 Hz timer (64 cycles)
        let mut timer = Timer::new();
        timer.reg.tac.store(0b110);
        timer.reg.tma.store(0xfe);
        timer.reg.tima.store(0xfe);

        for _ in 0..64 {
            assert_eq!(timer.reg.tima.load(), 0xfe);
            timer.cycle();
        } // increment -> 0xff
        for _ in 0..64 {
            assert_eq!(timer.reg.tima.load(), 0xff);
            timer.cycle();
        } // overflow  -> 0x00
        for _ in 0..2 {
            assert_eq!(timer.reg.tima.load(), 0x00);
            timer.cycle();
        }
        timer.reg.tma.store(0x69);
        for _ in 2..4 {
            assert_eq!(timer.reg.tima.load(), 0x00);
            timer.cycle();
        } // reload    -> 0x69
        for _ in 4..64 {
            assert_eq!(timer.reg.tima.load(), 0x69);
            timer.cycle();
        } // increment -> 0x6a
        assert_eq!(timer.reg.tima.load(), 0x6a);
    }

    // Test 4
    {
        // Configure 65536 Hz timer (64 cycles)
        let mut timer = Timer::new();
        timer.reg.tac.store(0b110);
        timer.reg.tma.store(0xfe);
        timer.reg.tima.store(0xfe);

        for _ in 0..64 {
            assert_eq!(timer.reg.tima.load(), 0xfe);
            timer.cycle();
        } // increment -> 0xff
        for _ in 0..64 {
            assert_eq!(timer.reg.tima.load(), 0xff);
            timer.cycle();
        } // overflow  -> 0x00
        for _ in 0..3 {
            assert_eq!(timer.reg.tima.load(), 0x00);
            timer.cycle();
        }
        timer.reg.tma.store(0x69);
        for _ in 3..4 {
            assert_eq!(timer.reg.tima.load(), 0x00);
            timer.cycle();
        } // reload    -> 0x69
        for _ in 4..64 {
            assert_eq!(timer.reg.tima.load(), 0x69);
            timer.cycle();
        } // increment -> 0x6a
        assert_eq!(timer.reg.tima.load(), 0x6a);
    }

    // Test 5
    {
        // Configure 65536 Hz timer (64 cycles)
        let mut timer = Timer::new();
        timer.reg.tac.store(0b110);
        timer.reg.tma.store(0xfe);
        timer.reg.tima.store(0xfe);

        for _ in 0..64 {
            assert_eq!(timer.reg.tima.load(), 0xfe);
            timer.cycle();
        } // increment -> 0xff
        for _ in 0..64 {
            assert_eq!(timer.reg.tima.load(), 0xff);
            timer.cycle();
        } // overflow  -> 0x00
        for _ in 0..4 {
            assert_eq!(timer.reg.tima.load(), 0x00);
            timer.cycle();
        } // reload    -> 0xfe
        timer.reg.tma.store(0x69); // too late!
        for _ in 4..64 {
            assert_eq!(timer.reg.tima.load(), 0xfe);
            timer.cycle();
        } // increment -> 0xff
        assert_eq!(timer.reg.tima.load(), 0xff);
    }
}

#[test]
fn timer_interrupt_on_reload_only() {
    let mut timer = Timer::new();
    timer.reg.tac.store(0b101); // 262144 Hz: counts every 16 cycles
    timer.reg.tma.store(0x10);
    timer.reg.tima.store(0xff);
    let mut raised = Vec::new();
    for n in 0..40 {
        if timer.cycle() {
            raised.push(n);
        }
    }
    // Overflow on cycle 15, reload on the fourth cycle after it.
    assert_eq!(raised, vec![19]);
    assert_eq!(timer.reg.tima.load(), 0x11);
}

#[test]
fn timer_div_counts_every_cycle() {
    let mut timer = Timer::new();
    for _ in 0..0x1ff {
        timer.cycle();
    }
    assert_eq!(timer.reg.div.div(), 0x1ff);
    assert_eq!(timer.load(Select::Div), 0x01);
    timer.store(Select::Div, 0x42);
    assert_eq!(timer.reg.div.div(), 0);
    assert_eq!(timer.load(Select::Tac), 0xf8);
    timer.store(Select::Tac, 0x05);
    assert_eq!(timer.load(Select::Tac), 0xfd);
    timer.store(Select::Tma, 0x33);
    assert_eq!(timer.load(Select::Tma), 0x33);
    assert_eq!(timer.reg.tima.rel(), Reload::Idle);
}

#[test]
fn timer_disabled_never_counts() {
    let mut timer = Timer::new();
    timer.reg.tac.store(0b010);
    timer.reg.tima.store(0x80);
    for _ in 0..4096 {
        assert!(!timer.cycle());
    }
    assert_eq!(timer.reg.tima.load(), 0x80);
    timer.reset();
    assert_eq!(timer.reg.tima.load(), 0);
    assert_eq!(timer.reg.div.div(), 0);
}
