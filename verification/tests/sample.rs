use sphn::error::{ConfigError, SampleError};
use sphn::sample::{
    settle, Decoded, Emitted, Failure, OnError, Outcome, Sample, SampleOrObject,
};

fn good() -> Sample<Vec<i16>> {
    Sample {
        sample_index: 4,
        file_index: 2,
        start_time: 8_000_000,
        sample_rate: 16_000,
        unpadded_len: 3,
        data: Ok(vec![1, 2, 3]),
        gen_duration: 250,
    }
}

fn bad() -> Sample<Vec<i16>> {
    Sample {
        sample_index: 5,
        file_index: 1,
        start_time: 0,
        sample_rate: 0,
        unpadded_len: 0,
        data: Err(SampleError::Io("no such file".to_string())),
        gen_duration: 10,
    }
}

#[test]
fn the_three_policies_are_read_from_their_names() {
    assert_eq!(OnError::parse("raise").unwrap(), OnError::Raise);
    assert_eq!(OnError::parse("log").unwrap(), OnError::Log);
    assert_eq!(OnError::parse("ignore").unwrap(), OnError::Ignore);
    assert_eq!(OnError::parse_or_default(None).unwrap(), OnError::Log);
    assert_eq!(OnError::parse_or_default(Some("ignore")).unwrap(), OnError::Ignore);
}

#[test]
fn any_other_name_is_refused_and_named_in_the_error() {
    for name in ["", "Raise", "raise ", "warn", "logs"] {
        match OnError::parse(name) {
            Err(ConfigError::UnknownOnError { name: given }) => assert_eq!(given, name),
            _ => panic!("{name} is no policy"),
        }
        assert!(matches!(
            OnError::parse_or_default(Some(name)),
            Err(ConfigError::UnknownOnError { .. })
        ));
    }
}

#[test]
fn a_decoded_sample_is_yielded_under_every_policy() {
    for policy in [OnError::Raise, OnError::Log, OnError::Ignore] {
        match good().resolve(policy) {
            Outcome::Yield(Decoded {
                sample_index,
                file_index,
                start_time,
                sample_rate,
                unpadded_len,
                data,
                gen_duration,
            }) => {
                assert_eq!(sample_index, 4);
                assert_eq!(file_index, 2);
                assert_eq!(start_time, 8_000_000);
                assert_eq!(sample_rate, 16_000);
                assert_eq!(unpadded_len, 3);
                assert_eq!(data, vec![1, 2, 3]);
                assert_eq!(gen_duration, 250);
            }
            _ => panic!("the sample was decoded"),
        }
    }
}

#[test]
fn a_failed_sample_is_raised_logged_or_ignored() {
    match bad().resolve(OnError::Raise) {
        Outcome::Raise(Failure { file_index, error: SampleError::Io(detail) }) => {
            assert_eq!(file_index, 1);
            assert_eq!(detail, "no such file");
        }
        _ => panic!("the failure is raised"),
    }
    match bad().resolve(OnError::Log) {
        Outcome::Skip { log: Some(Failure { file_index, error: SampleError::Io(detail) }) } => {
            assert_eq!(file_index, 1);
            assert_eq!(detail, "no such file");
        }
        _ => panic!("the failure is logged"),
    }
    assert!(matches!(bad().resolve(OnError::Ignore), Outcome::Skip { log: None }));
}

#[test]
fn a_transform_sees_only_what_is_yielded() {
    let double = |d: Decoded<Vec<i16>>| -> Result<usize, Failure> { Ok(2 * d.data.len()) };
    assert!(matches!(good().resolve(OnError::Log).transform(double), Outcome::Yield(6)));
    let never = |_: Decoded<Vec<i16>>| -> Result<usize, Failure> { panic!("not yielded") };
    assert!(matches!(
        bad().resolve(OnError::Log).transform(never),
        Outcome::Skip { log: Some(_) }
    ));
    assert!(matches!(bad().resolve(OnError::Ignore).transform(never), Outcome::Skip { log: None }));
    assert!(matches!(bad().resolve(OnError::Raise).transform(never), Outcome::Raise(_)));
}

#[test]
fn the_failure_of_a_transform_is_raised() {
    let fail = |d: Decoded<Vec<i16>>| -> Result<usize, Failure> {
        Err(Failure { file_index: d.file_index, error: SampleError::Decode("f".to_string()) })
    };
    match good().resolve(OnError::Ignore).transform(fail) {
        Outcome::Raise(Failure { file_index, error: SampleError::Decode(detail) }) => {
            assert_eq!(file_index, 2);
            assert_eq!(detail, "f");
        }
        _ => panic!("the failure is raised"),
    }
}

#[test]
fn the_consumer_applies_the_policy_to_samples_and_passes_objects_on() {
    let item: SampleOrObject<Vec<i16>, String> = SampleOrObject::Sample(good());
    assert!(matches!(settle(item, OnError::Raise), Outcome::Yield(Emitted::Sample(_))));
    let item: SampleOrObject<Vec<i16>, String> = SampleOrObject::Sample(bad());
    assert!(matches!(settle(item, OnError::Raise), Outcome::Raise(_)));
    let item: SampleOrObject<Vec<i16>, String> = SampleOrObject::Sample(bad());
    assert!(matches!(settle(item, OnError::Ignore), Outcome::Skip { log: None }));
    let item: SampleOrObject<Vec<i16>, String> =
        SampleOrObject::Object(Outcome::Yield("made".to_string()));
    match settle(item, OnError::Raise) {
        Outcome::Yield(Emitted::Object(object)) => assert_eq!(object, "made"),
        _ => panic!("the object is yielded"),
    }
    let item: SampleOrObject<Vec<i16>, String> =
        SampleOrObject::Object(Outcome::Skip { log: None });
    assert!(matches!(settle(item, OnError::Raise), Outcome::Skip { log: None }));
    let failure = Failure { file_index: 9, error: SampleError::EmptyFile };
    let item: SampleOrObject<Vec<i16>, String> = SampleOrObject::Object(Outcome::Raise(failure));
    assert!(matches!(
        settle(item, OnError::Ignore),
        Outcome::Raise(Failure { file_index: 9, error: SampleError::EmptyFile })
    ));
}
