use sigar::process;
use sigar::result::Platform;
use sigar::session::{extract_list, Action, Event, Phase, Session};
use sigar::{Error, SigarResult};

/// A stand-in for the native layer that counts the calls made on it.
struct Native<T: Clone> {
    open_code: i32,
    fetch: Result<T, i32>,
    text: Option<String>,
    destroy_code: i32,
    opens: u32,
    closes: u32,
    destroys: u32,
    describes: u32,
    live: bool,
    calls_without_handle: u32,
}

impl<T: Clone> Native<T> {
    fn new(fetch: Result<T, i32>) -> Self {
        Native {
            open_code: 0,
            fetch,
            text: Some("native text".to_string()),
            destroy_code: 0,
            opens: 0,
            closes: 0,
            destroys: 0,
            describes: 0,
            live: false,
            calls_without_handle: 0,
        }
    }

    fn on_handle(&mut self) {
        if !self.live {
            self.calls_without_handle += 1;
        }
    }

    fn run(&mut self, platform: Platform, list: bool) -> SigarResult<T> {
        let mut s = Session::new(platform, list);
        let mut action = s.action();
        loop {
            let ev = match action {
                Action::Open => {
                    if self.open_code == 0 {
                        self.opens += 1;
                        self.live = true;
                        Event::Opened
                    } else {
                        Event::OpenFailed { code: self.open_code }
                    }
                }
                Action::Fetch => {
                    self.on_handle();
                    match self.fetch.clone() {
                        Ok(value) => Event::Fetched { value },
                        Err(code) => Event::FetchFailed { code },
                    }
                }
                Action::Describe { .. } => {
                    self.on_handle();
                    self.describes += 1;
                    Event::Described { text: self.text.clone() }
                }
                Action::Destroy => {
                    self.on_handle();
                    self.destroys += 1;
                    Event::Destroyed { code: self.destroy_code }
                }
                Action::Close => {
                    self.on_handle();
                    self.closes += 1;
                    self.live = false;
                    Event::Closed
                }
                Action::Finish => break,
            };
            assert!(s.accepts(&ev));
            action = s.step(ev);
        }
        assert!(s.is_done());
        assert_eq!(s.opens() as u32, self.opens);
        assert_eq!(s.closes() as u32, self.closes);
        assert_eq!(s.destroys() as u32, self.destroys);
        s.finish()
    }
}

#[test]
fn handle_symmetry_on_success() {
    let mut n = Native::new(Ok(7u64));
    let r = n.run(Platform::Posix, false);
    assert_eq!(r, Ok(7));
    assert_eq!(n.opens, 1);
    assert_eq!(n.closes, 1);
    assert_eq!(n.destroys, 0);
    assert_eq!(n.calls_without_handle, 0);
}

#[test]
fn handle_symmetry_on_every_failure() {
    for code in [2, 13, 6, 20001, 9999] {
        let mut n: Native<u64> = Native::new(Err(code));
        let r = n.run(Platform::Posix, false);
        assert!(r.is_err());
        assert_eq!(n.opens, n.closes);
        assert_eq!(n.opens, 1);
        assert_eq!(n.calls_without_handle, 0);
    }
    let mut n: Native<u64> = Native::new(Ok(1));
    n.open_code = 13;
    let r = n.run(Platform::Posix, true);
    assert_eq!(r, Err(Error::EACCES));
    assert_eq!(n.opens, 0);
    assert_eq!(n.closes, 0);
    assert_eq!(n.destroys, 0);
}

#[test]
fn open_failure_with_unknown_code_is_not_described() {
    let mut n: Native<u64> = Native::new(Ok(1));
    n.open_code = 4242;
    let r = n.run(Platform::Posix, false);
    assert_eq!(r, Err(Error::Others("failed to describe error".to_string())));
    assert_eq!(n.describes, 0);
    assert_eq!(n.calls_without_handle, 0);
}

#[test]
fn list_destroyed_once_when_fetch_succeeds() {
    let mut n = Native::new(Ok(vec![1u64, 2, 3]));
    let r = n.run(Platform::Posix, true);
    assert_eq!(r, Ok(vec![1, 2, 3]));
    assert_eq!(n.destroys, 1);
    assert_eq!(n.opens, 1);
    assert_eq!(n.closes, 1);
}

#[test]
fn list_never_destroyed_when_fetch_fails() {
    for code in [2, 9999] {
        let mut n: Native<Vec<u64>> = Native::new(Err(code));
        let r = n.run(Platform::Posix, true);
        assert!(r.is_err());
        assert_eq!(n.destroys, 0);
        assert_eq!(n.closes, 1);
    }
}

#[test]
fn process_list_fetch_failure() {
    let mut n: Native<Vec<u64>> = Native::new(Err(2));
    let fetched = n.run(Platform::Posix, true);
    let r = process::list(fetched);
    assert_eq!(r, Err(Error::ENOENT));
    assert_eq!(n.destroys, 0);
    assert_eq!(n.opens, n.closes);
}

#[test]
fn process_list_fetch_failure_with_native_text() {
    let mut n: Native<Vec<u64>> = Native::new(Err(20013));
    n.text = Some("sigar says no".to_string());
    let r = process::list(n.run(Platform::Posix, true));
    assert_eq!(r, Err(Error::Others("sigar says no".to_string())));
    assert_eq!(n.describes, 1);
    assert_eq!(n.destroys, 0);
}

#[test]
fn process_list_fetch_success() {
    let mut n = Native::new(Ok(vec![1u64, 0x1_0000_0002, 300]));
    let r = process::list(n.run(Platform::Posix, true));
    assert_eq!(r, Ok(vec![1u32, 2, 300]));
    assert_eq!(n.destroys, 1);
}

#[test]
fn failed_description_gives_fixed_reason() {
    let mut n: Native<u64> = Native::new(Err(31337));
    n.text = None;
    let r = n.run(Platform::Posix, false);
    assert_eq!(r, Err(Error::Others("failed to describe error".to_string())));
}

#[test]
fn failed_destroy_is_reported() {
    let mut n = Native::new(Ok(vec![5u64]));
    n.destroy_code = 1;
    let r = n.run(Platform::Posix, true);
    assert_eq!(r, Err(Error::Others("failed to destroy sigar".to_string())));
    assert_eq!(n.destroys, 1);
    assert_eq!(n.closes, 1);
}

#[test]
fn windows_table_is_used_when_chosen() {
    let mut n: Native<u64> = Native::new(Err(5));
    assert_eq!(n.run(Platform::Windows, false), Err(Error::EACCES));
    let mut n: Native<u64> = Native::new(Err(13));
    assert_eq!(
        n.run(Platform::Windows, false),
        Err(Error::Others("native text".to_string()))
    );
}

#[test]
fn phases_in_order() {
    let mut s: Session<u64> = Session::new(Platform::Posix, true);
    assert_eq!(s.phase(), Phase::Opening);
    assert!(!s.accepts(&Event::Closed));
    assert_eq!(s.step(Event::Opened), Action::Fetch);
    assert_eq!(s.step(Event::Fetched { value: 3 }), Action::Destroy);
    assert_eq!(s.step(Event::Destroyed { code: 0 }), Action::Close);
    assert_eq!(s.phase(), Phase::Closing);
    assert_eq!(s.step(Event::Closed), Action::Finish);
    assert!(s.is_done());
    assert!(!s.accepts(&Event::Opened));
    assert_eq!(s.finish(), Ok(3));
}

#[test]
fn describe_asks_for_the_failed_code() {
    let mut s: Session<u64> = Session::new(Platform::Posix, false);
    s.step(Event::Opened);
    assert_eq!(s.step(Event::FetchFailed { code: 777 }), Action::Describe { code: 777 });
    assert_eq!(s.phase(), Phase::Describing { code: 777 });
}

#[test]
fn extract_list_keeps_order() {
    fn double(x: &u64) -> u64 {
        x * 2
    }
    let raw = vec![3u64, 1, 2];
    assert_eq!(extract_list(&raw, double), vec![6, 2, 4]);
    let empty: Vec<u64> = vec![];
    assert_eq!(extract_list(&empty, double), Vec::<u64>::new());
}
