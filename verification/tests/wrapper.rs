use adrop::{Adrop, DisposalChannel, Received};
use std::sync::{Arc, Mutex};

struct Probe {
    name: u32,
    log: Arc<Mutex<Vec<u32>>>,
}

impl Drop for Probe {
    fn drop(&mut self) {
        self.log.lock().unwrap().push(self.name);
    }
}

fn destroyed(log: &Arc<Mutex<Vec<u32>>>) -> Vec<u32> {
    log.lock().unwrap().clone()
}

fn worker_step(channel: &mut DisposalChannel) -> bool {
    match channel.receive() {
        Received::Item(trash) => {
            drop(trash);
            true
        }
        Received::Empty | Received::Closed => false,
    }
}

#[derive(Debug, PartialEq)]
struct Counter {
    count: u64,
    label: String,
}

impl Counter {
    fn bump(&mut self, by: u64) -> u64 {
        self.count += by;
        self.count
    }
}

/// Keeps its lines until it is destroyed, and writes them out at that moment.
struct Logger {
    lines: Vec<String>,
    flushed: Arc<Mutex<Vec<String>>>,
}

impl Logger {
    fn log(&mut self, line: &str) {
        self.lines.push(line.to_string());
    }
}

impl Drop for Logger {
    fn drop(&mut self) {
        self.flushed.lock().unwrap().append(&mut self.lines);
    }
}

#[test]
fn new_wrapper_holds_its_value() {
    let wrapper = Adrop::new(String::from("Hello World!"));
    assert!(wrapper.is_holding());
    assert_eq!(wrapper.deref(), "Hello World!");
}

#[test]
fn default_wrapper_is_empty() {
    let wrapper: Adrop<String> = Adrop::default();
    assert!(!wrapper.is_holding());
}

#[test]
fn into_inner_gives_the_value_back() {
    let wrapper = Adrop::new(String::from("Hello World!"));
    let text = wrapper.into_inner();
    assert_eq!(text, "Hello World!");
}

#[test]
fn into_inner_gives_back_what_was_written_through_the_wrapper() {
    let mut wrapper = Adrop::new(vec![1, 2, 3]);
    wrapper.deref_mut().push(4);
    wrapper.deref_mut()[0] = 10;
    assert_eq!(wrapper.into_inner(), vec![10, 2, 3, 4]);
}

#[test]
fn reads_through_the_wrapper_match_direct_reads() {
    let direct = Counter { count: 41, label: String::from("c") };
    let wrapper = Adrop::new(Counter { count: 41, label: String::from("c") });
    assert_eq!(wrapper.deref().count, direct.count);
    assert_eq!(wrapper.deref().label, direct.label);
    assert_eq!(*wrapper.deref(), direct);
}

#[test]
fn writes_through_the_wrapper_match_direct_writes() {
    let mut direct = Counter { count: 0, label: String::from("c") };
    let mut wrapper = Adrop::new(Counter { count: 0, label: String::from("c") });
    for by in [1, 10, 100] {
        assert_eq!(wrapper.deref_mut().bump(by), direct.bump(by));
    }
    direct.label.push('!');
    wrapper.deref_mut().label.push('!');
    *wrapper.deref_mut() = Counter { count: 7, label: wrapper.deref().label.clone() };
    direct = Counter { count: 7, label: direct.label.clone() };
    assert_eq!(wrapper.deref().count, 7);
    assert_eq!(*wrapper.deref(), direct);
    assert_eq!(wrapper.into_inner(), Counter { count: 7, label: String::from("c!") });
}

#[test]
fn extracted_value_is_destroyed_where_its_owner_lets_go() {
    let log = Arc::new(Mutex::new(Vec::new()));
    let wrapper = Adrop::new(Probe { name: 1, log: log.clone() });
    let value = wrapper.into_inner();
    assert!(destroyed(&log).is_empty());
    assert_eq!(value.name, 1);
    drop(value);
    assert_eq!(destroyed(&log), vec![1]);
}

#[test]
fn extraction_leaves_nothing_for_the_finalizer() {
    let log = Arc::new(Mutex::new(Vec::new()));
    let mut channel = DisposalChannel::new();
    let mut wrapper = Adrop::new(Probe { name: 1, log: log.clone() });

    let value = std::mem::take(&mut wrapper).into_inner();
    assert!(!wrapper.is_holding());
    assert!(!wrapper.drop(&mut channel));
    assert_eq!(channel.len(), 0);
    assert!(!channel.is_started());
    assert!(!worker_step(&mut channel));
    assert!(destroyed(&log).is_empty());

    drop(value);
    assert_eq!(destroyed(&log), vec![1]);
}

#[test]
fn finalizer_hands_the_value_to_the_channel() {
    let log = Arc::new(Mutex::new(Vec::new()));
    let mut channel = DisposalChannel::new();
    let mut wrapper = Adrop::new(Probe { name: 2, log: log.clone() });

    assert!(wrapper.drop(&mut channel));
    assert!(!wrapper.is_holding());
    assert!(channel.is_started());
    assert_eq!(channel.len(), 1);
    assert!(destroyed(&log).is_empty());

    drop(wrapper);
    assert!(destroyed(&log).is_empty());

    assert!(worker_step(&mut channel));
    assert_eq!(destroyed(&log), vec![2]);
}

#[test]
fn finalizer_hands_off_once() {
    let log = Arc::new(Mutex::new(Vec::new()));
    let mut channel = DisposalChannel::new();
    let mut wrapper = Adrop::new(Probe { name: 3, log: log.clone() });

    assert!(wrapper.drop(&mut channel));
    assert!(!wrapper.drop(&mut channel));
    assert!(!wrapper.drop(&mut channel));
    assert_eq!(channel.len(), 1);

    assert!(worker_step(&mut channel));
    assert!(!worker_step(&mut channel));
    drop(wrapper);
    assert_eq!(destroyed(&log), vec![3]);
}

#[test]
fn finalizer_of_an_empty_wrapper_does_nothing() {
    let mut channel = DisposalChannel::new();
    let mut wrapper: Adrop<Vec<u8>> = Adrop::default();
    assert!(!wrapper.drop(&mut channel));
    assert!(!wrapper.is_holding());
    assert!(!channel.is_started());
    assert!(!channel.is_closed());
    assert_eq!(channel.len(), 0);
}

#[test]
fn finalizer_asks_for_a_worker_only_when_there_is_none() {
    let mut channel = DisposalChannel::new();
    let mut first = Adrop::new(1u8);
    let mut second = Adrop::new(2u8);
    assert!(first.drop(&mut channel));
    assert!(!second.drop(&mut channel));
    assert_eq!(channel.len(), 2);
}

#[test]
fn finalizer_against_a_closed_channel_destroys_in_place() {
    let log = Arc::new(Mutex::new(Vec::new()));
    let mut channel = DisposalChannel::new();
    let _ = channel.ensure_started();
    channel.close();
    let mut wrapper = Adrop::new(Probe { name: 6, log: log.clone() });

    assert!(!wrapper.drop(&mut channel));
    assert!(!wrapper.is_holding());
    assert_eq!(destroyed(&log), vec![6]);
    assert_eq!(channel.len(), 0);
}

#[test]
fn finalizers_hand_off_in_the_order_in_which_they_run() {
    let log = Arc::new(Mutex::new(Vec::new()));
    let mut channel = DisposalChannel::new();
    let mut a = Adrop::new(Probe { name: 1, log: log.clone() });
    let mut b = Adrop::new(Probe { name: 2, log: log.clone() });
    let mut c = Adrop::new(Probe { name: 3, log: log.clone() });
    let _ = b.drop(&mut channel);
    let _ = c.drop(&mut channel);
    let _ = a.drop(&mut channel);
    while worker_step(&mut channel) {}
    assert_eq!(destroyed(&log), vec![2, 3, 1]);
}

#[test]
fn wrapper_without_a_finalizer_run_destroys_its_value_in_place() {
    let log = Arc::new(Mutex::new(Vec::new()));
    let wrapper = Adrop::new(Probe { name: 8, log: log.clone() });
    drop(wrapper);
    assert_eq!(destroyed(&log), vec![8]);
}

#[test]
fn clone_of_a_wrapper_holds_a_value_of_its_own() {
    let mut channel = DisposalChannel::new();
    let mut wrapper = Adrop::new(vec![1u8, 2]);
    let mut copy = wrapper.clone();
    copy.deref_mut().push(3);
    assert_eq!(*wrapper.deref(), vec![1, 2]);
    assert_eq!(*copy.deref(), vec![1, 2, 3]);
    let _ = wrapper.drop(&mut channel);
    let _ = copy.drop(&mut channel);
    assert_eq!(channel.len(), 2);
}

#[test]
fn wrappers_compare_as_their_values_do() {
    let one = Adrop::new(1u32);
    let two = Adrop::new(2u32);
    assert!(one == Adrop::new(1u32));
    assert!(one != two);
    assert!(one < two);
    assert!(Adrop::<u32>::default() < one);
}

#[test]
fn logger_is_flushed_by_the_worker_not_by_the_finalizer() {
    let flushed = Arc::new(Mutex::new(Vec::new()));
    let mut channel = DisposalChannel::new();
    let mut wrapper = Adrop::new(Logger { lines: Vec::new(), flushed: flushed.clone() });

    wrapper.deref_mut().log("x");
    assert_eq!(wrapper.deref().lines, vec!["x"]);

    let start = wrapper.drop(&mut channel);
    assert!(start);
    drop(wrapper);
    assert!(flushed.lock().unwrap().is_empty());

    assert!(worker_step(&mut channel));
    assert_eq!(*flushed.lock().unwrap(), vec!["x"]);
}
