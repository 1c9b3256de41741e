//! The port space and the table of well-known services.

use vstd::prelude::*;

verus! {

/// The highest TCP port. Every scan of a network covers the ports 1 to `PORT_MAX`.
pub const PORT_MAX: u16 = 65535;

/// Well-known ports and what usually listens on them, in ascending order of port.
pub const SERVICES: [(u16, &'static str); 48] = [
    (20, "ftp data"),
    (21, "ftp control"),
    (22, "secure shell (ssh)"),
    (23, "Telnet"),
    (25, "Simple Mail Transfer Protocol (SMTP)"),
    (43, "whois"),
    (53, "Domain Name System (DNS)"),
    (67, "Bootstrap Protocol (BOOTP) or Dynamic Host Configuration Protocol (DHCP)"),
    (68, "Bootstrap Protocol (BOOTP) or Dynamic Host Configuration Protocol (DHCP)"),
    (69, "Trivial File Transfer Protocol (TFTP)"),
    (70, "Gopher"),
    (79, "Finger"),
    (80, "http"),
    (88, "Kerberos authentication system"),
    (109, "Post Office Protocol (POP) version 2"),
    (110, "Post Office Protocol (POP) version 3"),
    (113, "Ident/Authentication protocol"),
    (115, "Simple File Transfer Protocol (SMTP)"),
    (119, "Network News Transfer Protocol (NNTP)"),
    (123, "Network Time Protocol (NTP)"),
    (137, "NetBIOS Name Service"),
    (138, "NetBIOS Datagram Service"),
    (139, "NetBIOS Session Service"),
    (143, "Internet Message Access Protocol (IMAP)"),
    (161, "Simple Network Management Protocol (SNMP)"),
    (162, "Simple Network Management Protocol (SNMP) Trap Service (SNMPTRAP)"),
    (177, "X Display Manager Control Protocol (XDMCP)"),
    (179, "Border Gateway Protocol (BGP)"),
    (194, "Internet Relay Chat (IRC)"),
    (389, "Lightweight Directory Access Protocol (LDAP)"),
    (443, "https"),
    (445, "Microsoft-DS Directory Services/SAMBA (SMB)"),
    (456, "Simple File Transfer Protocol (SMTP) over SSL"),
    (510, "FirstClass Unified Communications"),
    (514, "Remote Shell or syslog"),
    (546, "Dynamic Host Configuration Protocol (DHCP) IPv6 (DHCPv6) client"),
    (547, "Dynamic Host Configuration Protocol (DHCP) IPv6 (DHCPv6) server"),
    (548, "Apple Filing Protocol (AFP) over TCP"),
    (631, "Internet Printing Protocol (IPP), Common Unix Printing System (CUPS) admin console"),
    (636, "LDAP over SSL (LDAPS)"),
    (666, "DOOM"),
    (853, "DNS over TLS"),
    (873, "rsync"),
    (989, "FTP data over TLS"),
    (990, "FTP control over TLS"),
    (992, "Telnet over TLS"),
    (993, "Internet Message Access Protocol (IMAP) over TLS (IMAPS)"),
    (995, "Post Office Protocol (POP) version 3 over TLS"),
];

/// The description of the first entry of `table`, from index `from` on, whose port is `port`.
pub open spec fn lookup_from(table: Seq<(u16, &'static str)>, port: u16, from: int) -> Option<
    &'static str,
>
    decreases table.len() - from,
{
    if from < 0 || from >= table.len() {
        None
    } else if table[from].0 == port {
        Some(table[from].1)
    } else {
        lookup_from(table, port, from + 1)
    }
}

/// The description that the service table holds for `port`, if any.
pub open spec fn spec_service_name(port: u16) -> Option<&'static str> {
    lookup_from(SERVICES@, port, 0)
}

/// Looks `port` up in the service table.
pub fn service_name(port: u16) -> (name: Option<&'static str>)
    ensures
        name == spec_service_name(port),
{
    let mut i: usize = 0;
    while i < SERVICES.len()
        invariant
            i <= SERVICES@.len(),
            spec_service_name(port) == lookup_from(SERVICES@, port, i as int),
        decreases SERVICES@.len() - i,
    {
        if SERVICES[i].0 == port {
            return Some(SERVICES[i].1);
        }
        i += 1;
    }
    None
}

} // verus!
