use guardy::digits::u64_to_string;
use guardy::link::finding_link;
use guardy::payload::compose;
use guardy::payload::Finding;
use guardy::severity::classify;
use guardy::severity::colour;
use guardy::severity::mention;
use guardy::severity::Severity;
use guardy::severity::SeverityTier;

/// Builds the classifier's input from a floating-point score the way the
/// surrounding application does: NaN is marked as such, every other score is
/// truncated toward zero.
fn sev(score: f32) -> Severity {
    if score.is_nan() {
        Severity::NotANumber
    } else {
        Severity::Score(score as i64)
    }
}

fn sample_finding() -> Finding {
    Finding {
        finding_type: String::from("UnauthorizedAccess:EC2/SSHBruteForce"),
        severity: sev(5.3),
        severity_text: String::from("5.3"),
        account_id: String::from("123456789012"),
        region: String::from("eu-west-1"),
        description: String::from("An SSH brute force attack was observed."),
        first_seen: 0,
        last_seen: 1431648000,
        updated_at: 1431648000,
        count: 17,
    }
}

#[test]
fn classify_interval_interiors() {
    assert_eq!(classify(sev(9.5)), SeverityTier::Critical);
    assert_eq!(classify(sev(8.0)), SeverityTier::High);
    assert_eq!(classify(sev(5.5)), SeverityTier::Medium);
    assert_eq!(classify(sev(2.0)), SeverityTier::Low);
    assert_eq!(classify(sev(0.5)), SeverityTier::Unknown);
}

#[test]
fn classify_boundaries_are_half_open() {
    assert_eq!(classify(sev(1.0)), SeverityTier::Low);
    assert_eq!(classify(sev(4.0)), SeverityTier::Medium);
    assert_eq!(classify(sev(7.0)), SeverityTier::High);
    assert_eq!(classify(sev(9.0)), SeverityTier::Critical);
    assert_eq!(classify(sev(10.0)), SeverityTier::Unknown);
    assert_eq!(classify(sev(9.99)), SeverityTier::Critical);
    assert_eq!(classify(sev(6.99)), SeverityTier::Medium);
}

#[test]
fn classify_out_of_range_scores() {
    assert_eq!(classify(sev(-1.0)), SeverityTier::Unknown);
    assert_eq!(classify(sev(-0.5)), SeverityTier::Unknown);
    assert_eq!(classify(sev(11.0)), SeverityTier::Unknown);
    assert_eq!(classify(sev(f32::INFINITY)), SeverityTier::Unknown);
    assert_eq!(classify(sev(f32::NEG_INFINITY)), SeverityTier::Unknown);
    assert_eq!(classify(sev(0.0)), SeverityTier::Unknown);
}

#[test]
fn classify_nan_is_unknown() {
    assert_eq!(classify(sev(f32::NAN)), SeverityTier::Unknown);
}

#[test]
fn tier_colours() {
    assert_eq!(colour(SeverityTier::Critical), "#DF4661");
    assert_eq!(colour(SeverityTier::High), "#DB6B30");
    assert_eq!(colour(SeverityTier::Medium), "#FED141");
    assert_eq!(colour(SeverityTier::Low), "#00A3E0");
    assert_eq!(colour(SeverityTier::Unknown), "#BABABA");
}

#[test]
fn tier_mentions() {
    assert_eq!(mention(SeverityTier::Critical), "@channel");
    assert_eq!(mention(SeverityTier::High), "@channel");
    assert_eq!(mention(SeverityTier::Medium), "@here");
    assert_eq!(mention(SeverityTier::Low), "");
    assert_eq!(mention(SeverityTier::Unknown), "");
}

#[test]
fn link_ssh_brute_force_resolves_to_ec2() {
    let link = finding_link("UnauthorizedAccess:EC2/SSHBruteForce");
    assert_eq!(
        link,
        "https://docs.aws.amazon.com/guardduty/latest/ug/guardduty_finding-types-ec2.html#unauthorizedaccess-ec2-sshbruteforce"
    );
    assert!(link.ends_with("ec2.html#unauthorizedaccess-ec2-sshbruteforce"));
}

#[test]
fn link_blackhole_traffic_resolves_to_ec2() {
    let link = finding_link("Trojan:EC2/BlackholeTraffic");
    assert_eq!(
        link,
        "https://docs.aws.amazon.com/guardduty/latest/ug/guardduty_finding-types-ec2.html#trojan-ec2-blackholetraffic"
    );
}

#[test]
fn link_iamuser_maps_to_iam_group() {
    let link = finding_link("Recon:IAMUser/MaliciousIPCaller");
    assert_eq!(
        link,
        "https://docs.aws.amazon.com/guardduty/latest/ug/guardduty_finding-types-iam.html#recon-iam-maliciousipcaller"
    );
}

#[test]
fn link_s3_and_kubernetes_groups() {
    assert_eq!(
        finding_link("Policy:S3/BucketPublicAccessGranted"),
        "https://docs.aws.amazon.com/guardduty/latest/ug/guardduty_finding-types-s3.html#policy-s3-bucketpublicaccessgranted"
    );
    assert_eq!(
        finding_link("Discovery:Kubernetes/SuccessfulAnonymousAccess"),
        "https://docs.aws.amazon.com/guardduty/latest/ug/guardduty_finding-types-kubernetes.html#discovery-kubernetes-successfulanonymousaccess"
    );
}

#[test]
fn link_without_delimiters_is_empty() {
    assert_eq!(finding_link("Foo"), "");
    assert_eq!(finding_link(""), "");
    assert_eq!(finding_link("NoSlash:Here"), "");
    assert_eq!(finding_link("NoColon/Here"), "");
}

#[test]
fn link_unknown_category_fails_closed() {
    assert_eq!(finding_link("Persistence:UnknownService/Weird"), "");
    assert_eq!(finding_link("Recon:Lambda/SomethingNew"), "");
}

#[test]
fn count_renders_in_decimal() {
    assert_eq!(u64_to_string(0), "0");
    assert_eq!(u64_to_string(7), "7");
    assert_eq!(u64_to_string(10), "10");
    assert_eq!(u64_to_string(17), "17");
    assert_eq!(u64_to_string(904), "904");
    assert_eq!(u64_to_string(123456789), "123456789");
}

#[test]
fn compose_fills_every_part_of_the_payload() {
    let f = sample_finding();
    let p = compose(&f);
    assert_eq!(
        p.fallback,
        "GuardDuty:UnauthorizedAccess:EC2/SSHBruteForce in 123456789012 eu-west-1"
    );
    assert_eq!(p.color, "#FED141");
    assert_eq!(
        p.pretext,
        "*Finding in eu-west-1 from account 123456789012* @here"
    );
    assert_eq!(p.title, "UnauthorizedAccess:EC2/SSHBruteForce");
    assert_eq!(
        p.title_link,
        "https://docs.aws.amazon.com/guardduty/latest/ug/guardduty_finding-types-ec2.html#unauthorizedaccess-ec2-sshbruteforce"
    );
    assert_eq!(p.text, "An SSH brute force attack was observed.");
    assert_eq!(p.footer, "GuardyBot");
    assert_eq!(
        p.footer_icon,
        "https://rustacean.net/assets/rustacean-flat-happy.png"
    );
    assert_eq!(p.ts, 1431648000);
    assert!(p.link_names);
}

#[test]
fn compose_field_order_and_short_flags() {
    let f = sample_finding();
    let p = compose(&f);
    let titles: Vec<&str> = p.fields.iter().map(|x| x.title.as_str()).collect();
    assert_eq!(titles, vec!["Severity", "First seen", "Count", "Last seen"]);
    assert!(p.fields.iter().all(|x| x.short));
    assert_eq!(p.fields[0].value, "5.3");
    assert_eq!(p.fields[1].value, "Thu Jan  1 00:00:00");
    assert_eq!(p.fields[2].value, "17");
    assert_eq!(p.fields[3].value, "Fri May 15 00:00:00");
}

#[test]
fn compose_survives_unresolvable_link() {
    let mut f = sample_finding();
    f.finding_type = String::from("Persistence:UnknownService/Weird");
    let p = compose(&f);
    assert_eq!(p.title, "Persistence:UnknownService/Weird");
    assert_eq!(p.title_link, "");
    assert_eq!(p.fields.len(), 4);
}

#[test]
fn compose_quiet_tier_leaves_pretext_clean() {
    let mut f = sample_finding();
    f.severity = sev(2.0);
    f.severity_text = String::from("2");
    let p = compose(&f);
    assert_eq!(p.pretext, "*Finding in eu-west-1 from account 123456789012*");
    assert!(!p.pretext.ends_with(' '));

    f.severity = sev(f32::NAN);
    let p2 = compose(&f);
    assert_eq!(p2.pretext, "*Finding in eu-west-1 from account 123456789012*");
}

#[test]
fn compose_loud_tier_mentions_once_with_single_space() {
    let mut f = sample_finding();
    f.severity = sev(9.1);
    let p = compose(&f);
    assert_eq!(
        p.pretext,
        "*Finding in eu-west-1 from account 123456789012* @channel"
    );
    assert_eq!(p.color, "#DF4661");
}
