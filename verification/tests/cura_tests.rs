//! Exercises of the engine through its public face: constructors, guards,
//! conditional mutation, handle lifetime, and the queue protocol under a
//! simulated contention storm.

use cura::queue::{Mode, RelayOutcome};
use cura::{Cura, DropOutcome};

struct Foo {
    id: u16,
}

impl Foo {
    pub fn new(id: u16) -> Foo {
        Foo { id }
    }

    pub fn testing(&self) -> u16 {
        println!("works {}", self.id);
        self.id
    }
}

#[derive(Clone, Copy)]
enum LoopFoo {
    Bing,
    Bong,
}

#[derive(Clone, Copy)]
enum EE {
    Bing,
    Bong,
}

struct FF;

impl FF {
    fn get(&self) -> EE {
        EE::Bing
    }
}

struct Bar<T> {
    tt: Cura<T>,
}

fn takes_anything<T>(_t: T) {
    println!("got t");
}

#[test]
fn basic_usecases() {
    let mut num_hits: u16 = 0;
    let mut x = Cura::new(Foo::new(1));
    // a second handle shares the same block
    x.clone_handle();
    {
        let g = x.read();
        num_hits += x.get(&g).testing();
        let _ = x.unreadlock(g);
    }
    /*  take a writelock just for fun */
    {
        let w = x.write();
        let _old = x.replace(&w, Foo::new(10));
        num_hits += x.get_exclusive(&w).testing();
        let _ = x.unwritelock(w);
    }
    {
        let g = x.read();
        num_hits += x.get(&g).testing();
        let _ = x.unreadlock(g);
    }
    assert_eq!(21, num_hits);
}

#[test]
fn advanced_usecases() {
    // one writer holds the lock while 30 mixed requesters contend; after
    // the release, the queue must drain in FIFO order with no one starved
    let mut c = Cura::new(0u64);
    let w = c.write();

    let mut want: Vec<(u64, Mode)> = Vec::new();
    for i in 0..30u64 {
        let write = i % 5 == 0;
        want.push((i, if write { Mode::Write } else { Mode::Read }));
    }

    // every requester fails its fast path, spins out, and enqueues
    for &(t, mode) in &want {
        match mode {
            Mode::Write => assert!(c.try_write().is_none()),
            Mode::Read => {
                let (g, wake) = c.try_read();
                assert!(g.is_none());
                assert!(wake.is_none());
            }
        }
        let mut loops: u32 = 0;
        while !c.must_enqueue(loops) {
            loops += 1;
            std::hint::spin_loop();
        }
        c.enqueue_waiter(t, mode);
    }

    // the writer releases; the wakeup goes to the head of the queue
    let mut wake = c.unwritelock(w);
    let mut served: Vec<u64> = Vec::new();
    while let Some(head) = wake {
        if served.is_empty() {
            // a stale wakeup reaches a thread that is not the head: it
            // must forward to the true head and change nothing
            let stale = want[7].0;
            assert_ne!(stale, head);
            match c.on_wake(stale) {
                RelayOutcome::Forward(t) => assert_eq!(t, head),
                RelayOutcome::Proceed => panic!("a thread overtook the head"),
            }
        }
        match c.on_wake(head) {
            RelayOutcome::Proceed => {
                let mode = want.iter().find(|p| p.0 == head).unwrap().1;
                wake = match mode {
                    Mode::Write => {
                        let g = c.try_write().expect("the head's retry must succeed");
                        c.unwritelock(g)
                    }
                    Mode::Read => {
                        let (g, _reader_wake) = c.try_read();
                        let g = g.expect("the head's retry must succeed");
                        c.unreadlock(g)
                    }
                };
                served.push(head);
                println!("joined");
            }
            RelayOutcome::Forward(_) => panic!("the designated head was not served"),
        }
    }

    // all 30 completed, in exactly the order they escalated
    let expected: Vec<u64> = want.iter().map(|p| p.0).collect();
    assert_eq!(served, expected);
    // nobody is left queued: a fresh arrival sees no reason to escalate
    assert!(!c.must_enqueue(0));
}

#[test]
fn sized() {
    let t = Cura::from_box(Box::new(FF));
    takes_anything(t);
    let tt = Cura::from_box(Box::new(FF));
    let f = Bar { tt };
    let _ = std::mem::size_of::<Cura<FF>>();
    let _ = std::mem::size_of::<Bar<FF>>();
    let mut c = f.tt;
    let g = c.read();
    match c.get(&g).get() {
        EE::Bing => {}
        EE::Bong => panic!("wrong variant"),
    }
    let _ = c.unreadlock(g);
}

#[test]
fn alter_works() {
    let mut t = Cura::new(3);
    let first = t.alter(|x: &i32| {
        if *x == 2 {
            Some(3)
        } else {
            None
        }
    });
    assert!(first.is_none());

    let second = t.alter(|x: &i32| {
        if *x == 3 {
            Some(4)
        } else {
            None
        }
    });
    assert!(second.is_some());
}

#[test]
fn loop_a_lot() {
    let mut s = Cura::new(LoopFoo::Bing);
    let mut i = 2000;
    while i > 0 {
        let g = s.read();
        let v = *s.get(&g);
        let _ = s.unreadlock(g);
        match v {
            LoopFoo::Bing => {}
            LoopFoo::Bong => {}
        }
        i -= 1;
    }
}

#[test]
fn loop_a_lot_box() {
    let t = Box::new(FF);
    let mut s = Cura::from_box(t);
    let mut i = 2000;
    while i > 0 {
        let g = s.read();
        let v = s.get(&g).get();
        let _ = s.unreadlock(g);
        match v {
            EE::Bing => {}
            EE::Bong => {
                panic!("never here");
            }
        }
        i -= 1;
    }
}

#[test]
fn it_works() {
    let mut drops: usize = 0;

    /*  create two handles and keep track of dropping */
    let mut x = Cura::new(("salve!", ()));
    x.clone_handle();

    /*  read through one handle */
    {
        let g = x.read();
        assert_eq!(x.get(&g).0, "salve!");
        let _ = x.unreadlock(g);
    }

    /*  and still works through the other */
    {
        let g = x.read();
        assert_eq!(x.get(&g).0, "salve!");
        let _ = x.unreadlock(g);
    }

    /*  the first handle goes away: the payload must not be freed yet */
    let x = match x.drop_handle() {
        DropOutcome::Alive(c) => c,
        DropOutcome::Freed(_) => panic!("freed while a handle still existed"),
    };
    assert_eq!(drops, 0);

    /*  the last handle goes away: the payload comes out, exactly once */
    match x.drop_handle() {
        DropOutcome::Alive(_) => panic!("the block leaked"),
        DropOutcome::Freed(p) => {
            drop(p);
            drops += 1;
        }
    }
    assert_eq!(drops, 1);
}
