//! Port-to-service mapping.
//!
//! A static, port-based hint of which service usually listens on a port.
//! It is a heuristic: any service can listen on any port.
use vstd::prelude::*;

use crate::text::str_eq;

verus! {

/// Transport-layer protocol a service is typically associated with.
#[derive(Debug, Clone, Copy, PartialEq, Eq, Structural)]
pub enum Transport {
    Tcp,
    Udp,
    /// Service uses both TCP and UDP on the same port.
    TcpUdp,
}

/// Static metadata describing the typical service on a port.
#[derive(Debug, Clone, Copy, PartialEq, Eq)]
pub struct ServiceInfo {
    /// Short IANA-style service name, e.g. `"HTTP"`, `"SSH"`, `"Unknown"`.
    pub name: &'static str,
    /// Which protocol(s) this service normally uses.
    pub transport: Transport,
    /// One-line human-readable description.
    pub description: &'static str,
}

/// The well-known service database: name, usual transport and description
/// of every port that has an entry of its own.
pub open spec fn registry(port: u16) -> Option<(Seq<char>, Transport, Seq<char>)> {
    match port {
        20 => Some(("FTP-DATA"@, Transport::Tcp, "File Transfer Protocol — data channel"@)),
        21 => Some(("FTP"@, Transport::Tcp, "File Transfer Protocol — control"@)),
        22 => Some(("SSH"@, Transport::Tcp, "Secure Shell — encrypted remote login"@)),
        23 => Some(("TELNET"@, Transport::Tcp, "Telnet — unencrypted remote login (legacy)"@)),
        25 => Some(("SMTP"@, Transport::Tcp, "Simple Mail Transfer Protocol"@)),
        53 => Some(("DNS"@, Transport::TcpUdp, "Domain Name System"@)),
        67 => Some(("DHCP"@, Transport::Udp, "Dynamic Host Configuration Protocol — server"@)),
        68 => Some(("DHCP-CLIENT"@, Transport::Udp, "Dynamic Host Configuration Protocol — client"@)),
        69 => Some(("TFTP"@, Transport::Udp, "Trivial File Transfer Protocol"@)),
        80 => Some(("HTTP"@, Transport::Tcp, "HyperText Transfer Protocol"@)),
        88 => Some(("KERBEROS"@, Transport::TcpUdp, "Kerberos authentication"@)),
        110 => Some(("POP3"@, Transport::Tcp, "Post Office Protocol v3"@)),
        111 => Some(("RPCBIND"@, Transport::TcpUdp, "ONC RPC portmapper"@)),
        119 => Some(("NNTP"@, Transport::Tcp, "Network News Transfer Protocol"@)),
        123 => Some(("NTP"@, Transport::Udp, "Network Time Protocol"@)),
        135 => Some(("MSRPC"@, Transport::Tcp, "Microsoft RPC endpoint mapper"@)),
        137 => Some(("NETBIOS-NS"@, Transport::TcpUdp, "NetBIOS Name Service"@)),
        138 => Some(("NETBIOS-DGM"@, Transport::Udp, "NetBIOS Datagram Service"@)),
        139 => Some(("NETBIOS-SSN"@, Transport::Tcp, "NetBIOS Session Service"@)),
        143 => Some(("IMAP"@, Transport::Tcp, "Internet Message Access Protocol"@)),
        161 => Some(("SNMP"@, Transport::Udp, "Simple Network Management Protocol — agent"@)),
        162 => Some(("SNMPTRAP"@, Transport::Udp, "Simple Network Management Protocol — trap"@)),
        179 => Some(("BGP"@, Transport::Tcp, "Border Gateway Protocol"@)),
        194 => Some(("IRC"@, Transport::TcpUdp, "Internet Relay Chat"@)),
        389 => Some(("LDAP"@, Transport::TcpUdp, "Lightweight Directory Access Protocol"@)),
        443 => Some(("HTTPS"@, Transport::Tcp, "HTTP over TLS/SSL"@)),
        445 => Some(("SMB"@, Transport::Tcp, "Server Message Block — Windows file sharing"@)),
        465 => Some(("SMTPS"@, Transport::Tcp, "SMTP over TLS (legacy)"@)),
        514 => Some(("SYSLOG"@, Transport::Udp, "System log / Remote Shell"@)),
        515 => Some(("LPD"@, Transport::Tcp, "Line Printer Daemon"@)),
        587 => Some(("SUBMISSION"@, Transport::Tcp, "SMTP mail submission (RFC 6409)"@)),
        631 => Some(("IPP"@, Transport::TcpUdp, "Internet Printing Protocol (CUPS)"@)),
        636 => Some(("LDAPS"@, Transport::Tcp, "LDAP over TLS/SSL"@)),
        873 => Some(("RSYNC"@, Transport::Tcp, "rsync file synchronisation"@)),
        902 => Some(("VMWARE"@, Transport::Tcp, "VMware ESXi / Workstation"@)),
        989 => Some(("FTPS-DATA"@, Transport::Tcp, "FTP over TLS — data channel"@)),
        990 => Some(("FTPS"@, Transport::Tcp, "FTP over TLS — control channel"@)),
        993 => Some(("IMAPS"@, Transport::Tcp, "IMAP over TLS/SSL"@)),
        995 => Some(("POP3S"@, Transport::Tcp, "POP3 over TLS/SSL"@)),
        1080 => Some(("SOCKS"@, Transport::Tcp, "SOCKS proxy"@)),
        1194 => Some(("OPENVPN"@, Transport::TcpUdp, "OpenVPN"@)),
        1433 => Some(("MSSQL"@, Transport::Tcp, "Microsoft SQL Server"@)),
        1521 => Some(("ORACLE-DB"@, Transport::Tcp, "Oracle Database listener"@)),
        1723 => Some(("PPTP"@, Transport::Tcp, "Point-to-Point Tunnelling Protocol"@)),
        2049 => Some(("NFS"@, Transport::TcpUdp, "Network File System"@)),
        2181 => Some(("ZOOKEEPER"@, Transport::Tcp, "Apache ZooKeeper — client"@)),
        2375 => Some(("DOCKER"@, Transport::Tcp, "Docker daemon — UNENCRYPTED, high risk"@)),
        2376 => Some(("DOCKER-TLS"@, Transport::Tcp, "Docker daemon over TLS"@)),
        2379 => Some(("ETCD"@, Transport::Tcp, "etcd client API"@)),
        2380 => Some(("ETCD-PEER"@, Transport::Tcp, "etcd peer communication"@)),
        3000 => Some(("GRAFANA"@, Transport::Tcp, "Grafana dashboards / dev HTTP server"@)),
        3306 => Some(("MYSQL"@, Transport::Tcp, "MySQL / MariaDB database"@)),
        3389 => Some(("RDP"@, Transport::Tcp, "Windows Remote Desktop Protocol"@)),
        4369 => Some(("EPMD"@, Transport::Tcp, "Erlang Port Mapper Daemon (RabbitMQ)"@)),
        5000 => Some(("HTTP-ALT"@, Transport::Tcp, "Common dev HTTP / UPnP"@)),
        5040 => Some(("WIN-UDA"@, Transport::Tcp, "Windows User Data Access service"@)),
        5357 => Some(("WSDAPI"@, Transport::Tcp, "Web Services for Devices (Windows)"@)),
        5432 => Some(("POSTGRESQL"@, Transport::Tcp, "PostgreSQL database"@)),
        5672 => Some(("AMQP"@, Transport::Tcp, "RabbitMQ / AMQP message broker"@)),
        5900 => Some(("VNC"@, Transport::Tcp, "Virtual Network Computing — remote desktop"@)),
        5984 => Some(("COUCHDB"@, Transport::Tcp, "Apache CouchDB HTTP API"@)),
        6379 => Some(("REDIS"@, Transport::Tcp, "Redis in-memory data store"@)),
        6443 => Some(("KUBE-API"@, Transport::Tcp, "Kubernetes API server (TLS)"@)),
        7001 => Some(("WEBLOGIC"@, Transport::Tcp, "Oracle WebLogic Server"@)),
        7680 => Some(("WIN-DO"@, Transport::Tcp, "Windows Update Delivery Optimisation"@)),
        8080 => Some(("HTTP-PROXY"@, Transport::Tcp, "HTTP alternate / Tomcat / proxy"@)),
        8443 => Some(("HTTPS-ALT"@, Transport::Tcp, "HTTPS alternate port"@)),
        8888 => Some(("JUPYTER"@, Transport::Tcp, "Jupyter Notebook / common HTTP alt"@)),
        9000 => Some(("SONARQUBE"@, Transport::Tcp, "SonarQube / PHP-FPM"@)),
        9090 => Some(("PROMETHEUS"@, Transport::Tcp, "Prometheus metrics server"@)),
        9092 => Some(("KAFKA"@, Transport::Tcp, "Apache Kafka broker"@)),
        9200 => Some(("ELASTICSEARCH"@, Transport::Tcp, "Elasticsearch HTTP API"@)),
        9300 => Some(("ES-CLUSTER"@, Transport::Tcp, "Elasticsearch cluster transport"@)),
        9527 => Some(("VMWARE-VIEW"@, Transport::Tcp, "VMware Horizon View / app-specific"@)),
        10250 => Some(("KUBELET"@, Transport::Tcp, "Kubernetes kubelet API"@)),
        10255 => Some(("KUBELET-RO"@, Transport::Tcp, "Kubernetes kubelet read-only (deprecated)"@)),
        11211 => Some(("MEMCACHED"@, Transport::TcpUdp, "Memcached in-memory cache"@)),
        15672 => Some(("RABBITMQ-UI"@, Transport::Tcp, "RabbitMQ management HTTP UI"@)),
        16443 => Some(("MICROK8S"@, Transport::Tcp, "MicroK8s Kubernetes API server"@)),
        27017 => Some(("MONGODB"@, Transport::Tcp, "MongoDB database"@)),
        27018 => Some(("MONGODB-SHARD"@, Transport::Tcp, "MongoDB sharded cluster"@)),
        50000 => Some(("SAP"@, Transport::Tcp, "SAP Application Server"@)),
        _ => None,
    }
}

/// First port of the IANA dynamic / private range.
pub open spec fn is_dynamic_port(port: u16) -> bool {
    port >= 49152
}

/// The database entry that applies to `port` before the transport hint is
/// refined: the registry entry, else the ephemeral-range entry, else the
/// "Unknown" fallback.
pub open spec fn base_entry(port: u16) -> (Seq<char>, Transport, Seq<char>) {
    match registry(port) {
        Some(e) => e,
        None => if is_dynamic_port(port) {
            ("EPHEMERAL"@, Transport::Tcp, "OS-assigned ephemeral / dynamic port"@)
        } else {
            ("Unknown"@, Transport::TcpUdp, "No service mapping for this port"@)
        },
    }
}

/// The transport hint reported for a port probed over `probed`: a service
/// that uses both protocols is reported with the protocol that was probed.
pub open spec fn refined_transport(usual: Transport, probed: Transport) -> Transport {
    if usual == Transport::TcpUdp { probed } else { usual }
}

impl ServiceInfo {
    fn new(name: &'static str, transport: Transport, description: &'static str) -> (r: Self)
        ensures
            r.name == name,
            r.transport == transport,
            r.description == description,
    {
        ServiceInfo { name, transport, description }
    }

    /// The "known" predicate: every entry but the fallback counts as known.
    pub open spec fn spec_is_known(self) -> bool {
        self.name@ != "Unknown"@
    }

    /// The service identified for `port` probed over `probed`.
    pub open spec fn describes(self, port: u16, probed: Transport) -> bool {
        &&& self.name@ == base_entry(port).0
        &&& self.description@ == base_entry(port).2
        &&& self.transport == refined_transport(base_entry(port).1, probed)
    }

    /// Returns `true` if this port is in the well-known service database.
    pub fn is_known(self) -> (r: bool)
        ensures
            r == self.spec_is_known(),
    {
        !str_eq(self.name, "Unknown")
    }

    /// A short display string combining name and description, or `"Unknown"`.
    pub fn display(self) -> (r: String)
        ensures
            r@ == if self.spec_is_known() {
                self.name@ + " — "@ + self.description@
            } else {
                "Unknown"@
            },
    {
        if self.is_known() {
            let mut s = String::from_str(self.name);
            s.append(" — ");
            s.append(self.description);
            s
        } else {
            String::from_str("Unknown")
        }
    }
}

/// Map a port number to its most commonly associated service.
///
/// A service listed for both TCP and UDP is reported with the transport
/// that was actually probed (`target_proto`).
pub fn detect_service(port: u16, target_proto: Transport) -> (s: ServiceInfo)
    ensures
        s.describes(port, target_proto),
{
    let (name, transport, description): (&'static str, Transport, &'static str) = match port {
        20 => ("FTP-DATA", Transport::Tcp, "File Transfer Protocol — data channel"),
        21 => ("FTP", Transport::Tcp, "File Transfer Protocol — control"),
        22 => ("SSH", Transport::Tcp, "Secure Shell — encrypted remote login"),
        23 => ("TELNET", Transport::Tcp, "Telnet — unencrypted remote login (legacy)"),
        25 => ("SMTP", Transport::Tcp, "Simple Mail Transfer Protocol"),
        53 => ("DNS", Transport::TcpUdp, "Domain Name System"),
        67 => ("DHCP", Transport::Udp, "Dynamic Host Configuration Protocol — server"),
        68 => ("DHCP-CLIENT", Transport::Udp, "Dynamic Host Configuration Protocol — client"),
        69 => ("TFTP", Transport::Udp, "Trivial File Transfer Protocol"),
        80 => ("HTTP", Transport::Tcp, "HyperText Transfer Protocol"),
        88 => ("KERBEROS", Transport::TcpUdp, "Kerberos authentication"),
        110 => ("POP3", Transport::Tcp, "Post Office Protocol v3"),
        111 => ("RPCBIND", Transport::TcpUdp, "ONC RPC portmapper"),
        119 => ("NNTP", Transport::Tcp, "Network News Transfer Protocol"),
        123 => ("NTP", Transport::Udp, "Network Time Protocol"),
        135 => ("MSRPC", Transport::Tcp, "Microsoft RPC endpoint mapper"),
        137 => ("NETBIOS-NS", Transport::TcpUdp, "NetBIOS Name Service"),
        138 => ("NETBIOS-DGM", Transport::Udp, "NetBIOS Datagram Service"),
        139 => ("NETBIOS-SSN", Transport::Tcp, "NetBIOS Session Service"),
        143 => ("IMAP", Transport::Tcp, "Internet Message Access Protocol"),
        161 => ("SNMP", Transport::Udp, "Simple Network Management Protocol — agent"),
        162 => ("SNMPTRAP", Transport::Udp, "Simple Network Management Protocol — trap"),
        179 => ("BGP", Transport::Tcp, "Border Gateway Protocol"),
        194 => ("IRC", Transport::TcpUdp, "Internet Relay Chat"),
        389 => ("LDAP", Transport::TcpUdp, "Lightweight Directory Access Protocol"),
        443 => ("HTTPS", Transport::Tcp, "HTTP over TLS/SSL"),
        445 => ("SMB", Transport::Tcp, "Server Message Block — Windows file sharing"),
        465 => ("SMTPS", Transport::Tcp, "SMTP over TLS (legacy)"),
        514 => ("SYSLOG", Transport::Udp, "System log / Remote Shell"),
        515 => ("LPD", Transport::Tcp, "Line Printer Daemon"),
        587 => ("SUBMISSION", Transport::Tcp, "SMTP mail submission (RFC 6409)"),
        631 => ("IPP", Transport::TcpUdp, "Internet Printing Protocol (CUPS)"),
        636 => ("LDAPS", Transport::Tcp, "LDAP over TLS/SSL"),
        873 => ("RSYNC", Transport::Tcp, "rsync file synchronisation"),
        902 => ("VMWARE", Transport::Tcp, "VMware ESXi / Workstation"),
        989 => ("FTPS-DATA", Transport::Tcp, "FTP over TLS — data channel"),
        990 => ("FTPS", Transport::Tcp, "FTP over TLS — control channel"),
        993 => ("IMAPS", Transport::Tcp, "IMAP over TLS/SSL"),
        995 => ("POP3S", Transport::Tcp, "POP3 over TLS/SSL"),
        1080 => ("SOCKS", Transport::Tcp, "SOCKS proxy"),
        1194 => ("OPENVPN", Transport::TcpUdp, "OpenVPN"),
        1433 => ("MSSQL", Transport::Tcp, "Microsoft SQL Server"),
        1521 => ("ORACLE-DB", Transport::Tcp, "Oracle Database listener"),
        1723 => ("PPTP", Transport::Tcp, "Point-to-Point Tunnelling Protocol"),
        2049 => ("NFS", Transport::TcpUdp, "Network File System"),
        2181 => ("ZOOKEEPER", Transport::Tcp, "Apache ZooKeeper — client"),
        2375 => ("DOCKER", Transport::Tcp, "Docker daemon — UNENCRYPTED, high risk"),
        2376 => ("DOCKER-TLS", Transport::Tcp, "Docker daemon over TLS"),
        2379 => ("ETCD", Transport::Tcp, "etcd client API"),
        2380 => ("ETCD-PEER", Transport::Tcp, "etcd peer communication"),
        3000 => ("GRAFANA", Transport::Tcp, "Grafana dashboards / dev HTTP server"),
        3306 => ("MYSQL", Transport::Tcp, "MySQL / MariaDB database"),
        3389 => ("RDP", Transport::Tcp, "Windows Remote Desktop Protocol"),
        4369 => ("EPMD", Transport::Tcp, "Erlang Port Mapper Daemon (RabbitMQ)"),
        5000 => ("HTTP-ALT", Transport::Tcp, "Common dev HTTP / UPnP"),
        5040 => ("WIN-UDA", Transport::Tcp, "Windows User Data Access service"),
        5357 => ("WSDAPI", Transport::Tcp, "Web Services for Devices (Windows)"),
        5432 => ("POSTGRESQL", Transport::Tcp, "PostgreSQL database"),
        5672 => ("AMQP", Transport::Tcp, "RabbitMQ / AMQP message broker"),
        5900 => ("VNC", Transport::Tcp, "Virtual Network Computing — remote desktop"),
        5984 => ("COUCHDB", Transport::Tcp, "Apache CouchDB HTTP API"),
        6379 => ("REDIS", Transport::Tcp, "Redis in-memory data store"),
        6443 => ("KUBE-API", Transport::Tcp, "Kubernetes API server (TLS)"),
        7001 => ("WEBLOGIC", Transport::Tcp, "Oracle WebLogic Server"),
        7680 => ("WIN-DO", Transport::Tcp, "Windows Update Delivery Optimisation"),
        8080 => ("HTTP-PROXY", Transport::Tcp, "HTTP alternate / Tomcat / proxy"),
        8443 => ("HTTPS-ALT", Transport::Tcp, "HTTPS alternate port"),
        8888 => ("JUPYTER", Transport::Tcp, "Jupyter Notebook / common HTTP alt"),
        9000 => ("SONARQUBE", Transport::Tcp, "SonarQube / PHP-FPM"),
        9090 => ("PROMETHEUS", Transport::Tcp, "Prometheus metrics server"),
        9092 => ("KAFKA", Transport::Tcp, "Apache Kafka broker"),
        9200 => ("ELASTICSEARCH", Transport::Tcp, "Elasticsearch HTTP API"),
        9300 => ("ES-CLUSTER", Transport::Tcp, "Elasticsearch cluster transport"),
        9527 => ("VMWARE-VIEW", Transport::Tcp, "VMware Horizon View / app-specific"),
        10250 => ("KUBELET", Transport::Tcp, "Kubernetes kubelet API"),
        10255 => ("KUBELET-RO", Transport::Tcp, "Kubernetes kubelet read-only (deprecated)"),
        11211 => ("MEMCACHED", Transport::TcpUdp, "Memcached in-memory cache"),
        15672 => ("RABBITMQ-UI", Transport::Tcp, "RabbitMQ management HTTP UI"),
        16443 => ("MICROK8S", Transport::Tcp, "MicroK8s Kubernetes API server"),
        27017 => ("MONGODB", Transport::Tcp, "MongoDB database"),
        27018 => ("MONGODB-SHARD", Transport::Tcp, "MongoDB sharded cluster"),
        50000 => ("SAP", Transport::Tcp, "SAP Application Server"),
        49152..=65535 => ("EPHEMERAL", Transport::Tcp, "OS-assigned ephemeral / dynamic port"),
        _ => ("Unknown", Transport::TcpUdp, "No service mapping for this port"),
    };
    if transport == Transport::TcpUdp {
        ServiceInfo::new(name, target_proto, description)
    } else {
        ServiceInfo::new(name, transport, description)
    }
}

/// A service probed over TCP or over UDP is always reported with a single
/// transport, never with the combined `TcpUdp` hint.
pub proof fn lemma_probed_transport_is_single(port: u16, probed: Transport, s: ServiceInfo)
    requires
        probed != Transport::TcpUdp,
        s.describes(port, probed),
    ensures
        s.transport != Transport::TcpUdp,
{
}

/// The protocol that was probed changes only the transport hint: name and
/// description of the identified service depend on the port alone.
pub proof fn lemma_identity_independent_of_probe(
    port: u16,
    p1: Transport,
    p2: Transport,
    s1: ServiceInfo,
    s2: ServiceInfo,
)
    requires
        s1.describes(port, p1),
        s2.describes(port, p2),
    ensures
        s1.name@ == s2.name@,
        s1.description@ == s2.description@,
        p1 == p2 ==> s1.transport == s2.transport,
{
}

/// Every port of the dynamic range without an entry of its own is reported
/// as an ephemeral TCP port.
pub proof fn lemma_dynamic_range_is_ephemeral(port: u16, probed: Transport, s: ServiceInfo)
    requires
        is_dynamic_port(port),
        registry(port) is None,
        s.describes(port, probed),
    ensures
        s.name@ == "EPHEMERAL"@,
        s.transport == Transport::Tcp,
{
}


/// The service database, entry by entry: the name, transport and
/// description reported for every listed port (a service of both
/// protocols is reported with the probed one); ports of the dynamic range
/// without an entry are ephemeral, and all others unknown.
pub proof fn lemma_service_table(port: u16, probed: Transport, s: ServiceInfo)
    requires
        s.describes(port, probed),
    ensures
        match port {
            20 => s.name@ == "FTP-DATA"@ && s.transport == Transport::Tcp && s.description@
                == "File Transfer Protocol — data channel"@,
            21 => s.name@ == "FTP"@ && s.transport == Transport::Tcp && s.description@
                == "File Transfer Protocol — control"@,
            22 => s.name@ == "SSH"@ && s.transport == Transport::Tcp && s.description@
                == "Secure Shell — encrypted remote login"@,
            23 => s.name@ == "TELNET"@ && s.transport == Transport::Tcp && s.description@
                == "Telnet — unencrypted remote login (legacy)"@,
            25 => s.name@ == "SMTP"@ && s.transport == Transport::Tcp && s.description@
                == "Simple Mail Transfer Protocol"@,
            53 => s.name@ == "DNS"@ && s.transport == probed && s.description@
                == "Domain Name System"@,
            67 => s.name@ == "DHCP"@ && s.transport == Transport::Udp && s.description@
                == "Dynamic Host Configuration Protocol — server"@,
            68 => s.name@ == "DHCP-CLIENT"@ && s.transport == Transport::Udp && s.description@
                == "Dynamic Host Configuration Protocol — client"@,
            69 => s.name@ == "TFTP"@ && s.transport == Transport::Udp && s.description@
                == "Trivial File Transfer Protocol"@,
            80 => s.name@ == "HTTP"@ && s.transport == Transport::Tcp && s.description@
                == "HyperText Transfer Protocol"@,
            88 => s.name@ == "KERBEROS"@ && s.transport == probed && s.description@
                == "Kerberos authentication"@,
            110 => s.name@ == "POP3"@ && s.transport == Transport::Tcp && s.description@
                == "Post Office Protocol v3"@,
            111 => s.name@ == "RPCBIND"@ && s.transport == probed && s.description@
                == "ONC RPC portmapper"@,
            119 => s.name@ == "NNTP"@ && s.transport == Transport::Tcp && s.description@
                == "Network News Transfer Protocol"@,
            123 => s.name@ == "NTP"@ && s.transport == Transport::Udp && s.description@
                == "Network Time Protocol"@,
            135 => s.name@ == "MSRPC"@ && s.transport == Transport::Tcp && s.description@
                == "Microsoft RPC endpoint mapper"@,
            137 => s.name@ == "NETBIOS-NS"@ && s.transport == probed && s.description@
                == "NetBIOS Name Service"@,
            138 => s.name@ == "NETBIOS-DGM"@ && s.transport == Transport::Udp && s.description@
                == "NetBIOS Datagram Service"@,
            139 => s.name@ == "NETBIOS-SSN"@ && s.transport == Transport::Tcp && s.description@
                == "NetBIOS Session Service"@,
            143 => s.name@ == "IMAP"@ && s.transport == Transport::Tcp && s.description@
                == "Internet Message Access Protocol"@,
            161 => s.name@ == "SNMP"@ && s.transport == Transport::Udp && s.description@
                == "Simple Network Management Protocol — agent"@,
            162 => s.name@ == "SNMPTRAP"@ && s.transport == Transport::Udp && s.description@
                == "Simple Network Management Protocol — trap"@,
            179 => s.name@ == "BGP"@ && s.transport == Transport::Tcp && s.description@
                == "Border Gateway Protocol"@,
            194 => s.name@ == "IRC"@ && s.transport == probed && s.description@
                == "Internet Relay Chat"@,
            389 => s.name@ == "LDAP"@ && s.transport == probed && s.description@
                == "Lightweight Directory Access Protocol"@,
            443 => s.name@ == "HTTPS"@ && s.transport == Transport::Tcp && s.description@
                == "HTTP over TLS/SSL"@,
            445 => s.name@ == "SMB"@ && s.transport == Transport::Tcp && s.description@
                == "Server Message Block — Windows file sharing"@,
            465 => s.name@ == "SMTPS"@ && s.transport == Transport::Tcp && s.description@
                == "SMTP over TLS (legacy)"@,
            514 => s.name@ == "SYSLOG"@ && s.transport == Transport::Udp && s.description@
                == "System log / Remote Shell"@,
            515 => s.name@ == "LPD"@ && s.transport == Transport::Tcp && s.description@
                == "Line Printer Daemon"@,
            587 => s.name@ == "SUBMISSION"@ && s.transport == Transport::Tcp && s.description@
                == "SMTP mail submission (RFC 6409)"@,
            631 => s.name@ == "IPP"@ && s.transport == probed && s.description@
                == "Internet Printing Protocol (CUPS)"@,
            636 => s.name@ == "LDAPS"@ && s.transport == Transport::Tcp && s.description@
                == "LDAP over TLS/SSL"@,
            873 => s.name@ == "RSYNC"@ && s.transport == Transport::Tcp && s.description@
                == "rsync file synchronisation"@,
            902 => s.name@ == "VMWARE"@ && s.transport == Transport::Tcp && s.description@
                == "VMware ESXi / Workstation"@,
            989 => s.name@ == "FTPS-DATA"@ && s.transport == Transport::Tcp && s.description@
                == "FTP over TLS — data channel"@,
            990 => s.name@ == "FTPS"@ && s.transport == Transport::Tcp && s.description@
                == "FTP over TLS — control channel"@,
            993 => s.name@ == "IMAPS"@ && s.transport == Transport::Tcp && s.description@
                == "IMAP over TLS/SSL"@,
            995 => s.name@ == "POP3S"@ && s.transport == Transport::Tcp && s.description@
                == "POP3 over TLS/SSL"@,
            1080 => s.name@ == "SOCKS"@ && s.transport == Transport::Tcp && s.description@
                == "SOCKS proxy"@,
            1194 => s.name@ == "OPENVPN"@ && s.transport == probed && s.description@
                == "OpenVPN"@,
            1433 => s.name@ == "MSSQL"@ && s.transport == Transport::Tcp && s.description@
                == "Microsoft SQL Server"@,
            1521 => s.name@ == "ORACLE-DB"@ && s.transport == Transport::Tcp && s.description@
                == "Oracle Database listener"@,
            1723 => s.name@ == "PPTP"@ && s.transport == Transport::Tcp && s.description@
                == "Point-to-Point Tunnelling Protocol"@,
            2049 => s.name@ == "NFS"@ && s.transport == probed && s.description@
                == "Network File System"@,
            2181 => s.name@ == "ZOOKEEPER"@ && s.transport == Transport::Tcp && s.description@
                == "Apache ZooKeeper — client"@,
            2375 => s.name@ == "DOCKER"@ && s.transport == Transport::Tcp && s.description@
                == "Docker daemon — UNENCRYPTED, high risk"@,
            2376 => s.name@ == "DOCKER-TLS"@ && s.transport == Transport::Tcp && s.description@
                == "Docker daemon over TLS"@,
            2379 => s.name@ == "ETCD"@ && s.transport == Transport::Tcp && s.description@
                == "etcd client API"@,
            2380 => s.name@ == "ETCD-PEER"@ && s.transport == Transport::Tcp && s.description@
                == "etcd peer communication"@,
            3000 => s.name@ == "GRAFANA"@ && s.transport == Transport::Tcp && s.description@
                == "Grafana dashboards / dev HTTP server"@,
            3306 => s.name@ == "MYSQL"@ && s.transport == Transport::Tcp && s.description@
                == "MySQL / MariaDB database"@,
            3389 => s.name@ == "RDP"@ && s.transport == Transport::Tcp && s.description@
                == "Windows Remote Desktop Protocol"@,
            4369 => s.name@ == "EPMD"@ && s.transport == Transport::Tcp && s.description@
                == "Erlang Port Mapper Daemon (RabbitMQ)"@,
            5000 => s.name@ == "HTTP-ALT"@ && s.transport == Transport::Tcp && s.description@
                == "Common dev HTTP / UPnP"@,
            5040 => s.name@ == "WIN-UDA"@ && s.transport == Transport::Tcp && s.description@
                == "Windows User Data Access service"@,
            5357 => s.name@ == "WSDAPI"@ && s.transport == Transport::Tcp && s.description@
                == "Web Services for Devices (Windows)"@,
            5432 => s.name@ == "POSTGRESQL"@ && s.transport == Transport::Tcp && s.description@
                == "PostgreSQL database"@,
            5672 => s.name@ == "AMQP"@ && s.transport == Transport::Tcp && s.description@
                == "RabbitMQ / AMQP message broker"@,
            5900 => s.name@ == "VNC"@ && s.transport == Transport::Tcp && s.description@
                == "Virtual Network Computing — remote desktop"@,
            5984 => s.name@ == "COUCHDB"@ && s.transport == Transport::Tcp && s.description@
                == "Apache CouchDB HTTP API"@,
            6379 => s.name@ == "REDIS"@ && s.transport == Transport::Tcp && s.description@
                == "Redis in-memory data store"@,
            6443 => s.name@ == "KUBE-API"@ && s.transport == Transport::Tcp && s.description@
                == "Kubernetes API server (TLS)"@,
            7001 => s.name@ == "WEBLOGIC"@ && s.transport == Transport::Tcp && s.description@
                == "Oracle WebLogic Server"@,
            7680 => s.name@ == "WIN-DO"@ && s.transport == Transport::Tcp && s.description@
                == "Windows Update Delivery Optimisation"@,
            8080 => s.name@ == "HTTP-PROXY"@ && s.transport == Transport::Tcp && s.description@
                == "HTTP alternate / Tomcat / proxy"@,
            8443 => s.name@ == "HTTPS-ALT"@ && s.transport == Transport::Tcp && s.description@
                == "HTTPS alternate port"@,
            8888 => s.name@ == "JUPYTER"@ && s.transport == Transport::Tcp && s.description@
                == "Jupyter Notebook / common HTTP alt"@,
            9000 => s.name@ == "SONARQUBE"@ && s.transport == Transport::Tcp && s.description@
                == "SonarQube / PHP-FPM"@,
            9090 => s.name@ == "PROMETHEUS"@ && s.transport == Transport::Tcp && s.description@
                == "Prometheus metrics server"@,
            9092 => s.name@ == "KAFKA"@ && s.transport == Transport::Tcp && s.description@
                == "Apache Kafka broker"@,
            9200 => s.name@ == "ELASTICSEARCH"@ && s.transport == Transport::Tcp && s.description@
                == "Elasticsearch HTTP API"@,
            9300 => s.name@ == "ES-CLUSTER"@ && s.transport == Transport::Tcp && s.description@
                == "Elasticsearch cluster transport"@,
            9527 => s.name@ == "VMWARE-VIEW"@ && s.transport == Transport::Tcp && s.description@
                == "VMware Horizon View / app-specific"@,
            10250 => s.name@ == "KUBELET"@ && s.transport == Transport::Tcp && s.description@
                == "Kubernetes kubelet API"@,
            10255 => s.name@ == "KUBELET-RO"@ && s.transport == Transport::Tcp && s.description@
                == "Kubernetes kubelet read-only (deprecated)"@,
            11211 => s.name@ == "MEMCACHED"@ && s.transport == probed && s.description@
                == "Memcached in-memory cache"@,
            15672 => s.name@ == "RABBITMQ-UI"@ && s.transport == Transport::Tcp && s.description@
                == "RabbitMQ management HTTP UI"@,
            16443 => s.name@ == "MICROK8S"@ && s.transport == Transport::Tcp && s.description@
                == "MicroK8s Kubernetes API server"@,
            27017 => s.name@ == "MONGODB"@ && s.transport == Transport::Tcp && s.description@
                == "MongoDB database"@,
            27018 => s.name@ == "MONGODB-SHARD"@ && s.transport == Transport::Tcp && s.description@
                == "MongoDB sharded cluster"@,
            50000 => s.name@ == "SAP"@ && s.transport == Transport::Tcp && s.description@
                == "SAP Application Server"@,
            _ => if port >= 49152 {
                s.name@ == "EPHEMERAL"@ && s.transport == Transport::Tcp && s.description@
                    == "OS-assigned ephemeral / dynamic port"@
            } else {
                s.name@ == "Unknown"@ && s.transport == probed && s.description@
                    == "No service mapping for this port"@
            },
        },
{
}

/// Every entry of the database counts as a known service; so does the
/// ephemeral range.  Only ports outside both are unknown.
pub proof fn lemma_known_iff_listed(port: u16, probed: Transport, s: ServiceInfo)
    requires
        s.describes(port, probed),
    ensures
        s.spec_is_known() <==> (registry(port) is Some || is_dynamic_port(port)),
{
    reveal_strlit("Unknown");
    match port {
        20 => reveal_strlit("FTP-DATA"),
        21 => reveal_strlit("FTP"),
        22 => reveal_strlit("SSH"),
        23 => reveal_strlit("TELNET"),
        25 => reveal_strlit("SMTP"),
        53 => reveal_strlit("DNS"),
        67 => reveal_strlit("DHCP"),
        68 => reveal_strlit("DHCP-CLIENT"),
        69 => reveal_strlit("TFTP"),
        80 => reveal_strlit("HTTP"),
        88 => reveal_strlit("KERBEROS"),
        110 => reveal_strlit("POP3"),
        111 => reveal_strlit("RPCBIND"),
        119 => reveal_strlit("NNTP"),
        123 => reveal_strlit("NTP"),
        135 => reveal_strlit("MSRPC"),
        137 => reveal_strlit("NETBIOS-NS"),
        138 => reveal_strlit("NETBIOS-DGM"),
        139 => reveal_strlit("NETBIOS-SSN"),
        143 => reveal_strlit("IMAP"),
        161 => reveal_strlit("SNMP"),
        162 => reveal_strlit("SNMPTRAP"),
        179 => reveal_strlit("BGP"),
        194 => reveal_strlit("IRC"),
        389 => reveal_strlit("LDAP"),
        443 => reveal_strlit("HTTPS"),
        445 => reveal_strlit("SMB"),
        465 => reveal_strlit("SMTPS"),
        514 => reveal_strlit("SYSLOG"),
        515 => reveal_strlit("LPD"),
        587 => reveal_strlit("SUBMISSION"),
        631 => reveal_strlit("IPP"),
        636 => reveal_strlit("LDAPS"),
        873 => reveal_strlit("RSYNC"),
        902 => reveal_strlit("VMWARE"),
        989 => reveal_strlit("FTPS-DATA"),
        990 => reveal_strlit("FTPS"),
        993 => reveal_strlit("IMAPS"),
        995 => reveal_strlit("POP3S"),
        1080 => reveal_strlit("SOCKS"),
        1194 => reveal_strlit("OPENVPN"),
        1433 => reveal_strlit("MSSQL"),
        1521 => reveal_strlit("ORACLE-DB"),
        1723 => reveal_strlit("PPTP"),
        2049 => reveal_strlit("NFS"),
        2181 => reveal_strlit("ZOOKEEPER"),
        2375 => reveal_strlit("DOCKER"),
        2376 => reveal_strlit("DOCKER-TLS"),
        2379 => reveal_strlit("ETCD"),
        2380 => reveal_strlit("ETCD-PEER"),
        3000 => reveal_strlit("GRAFANA"),
        3306 => reveal_strlit("MYSQL"),
        3389 => reveal_strlit("RDP"),
        4369 => reveal_strlit("EPMD"),
        5000 => reveal_strlit("HTTP-ALT"),
        5040 => reveal_strlit("WIN-UDA"),
        5357 => reveal_strlit("WSDAPI"),
        5432 => reveal_strlit("POSTGRESQL"),
        5672 => reveal_strlit("AMQP"),
        5900 => reveal_strlit("VNC"),
        5984 => reveal_strlit("COUCHDB"),
        6379 => reveal_strlit("REDIS"),
        6443 => reveal_strlit("KUBE-API"),
        7001 => reveal_strlit("WEBLOGIC"),
        7680 => reveal_strlit("WIN-DO"),
        8080 => reveal_strlit("HTTP-PROXY"),
        8443 => reveal_strlit("HTTPS-ALT"),
        8888 => reveal_strlit("JUPYTER"),
        9000 => reveal_strlit("SONARQUBE"),
        9090 => reveal_strlit("PROMETHEUS"),
        9092 => reveal_strlit("KAFKA"),
        9200 => reveal_strlit("ELASTICSEARCH"),
        9300 => reveal_strlit("ES-CLUSTER"),
        9527 => reveal_strlit("VMWARE-VIEW"),
        10250 => reveal_strlit("KUBELET"),
        10255 => reveal_strlit("KUBELET-RO"),
        11211 => reveal_strlit("MEMCACHED"),
        15672 => reveal_strlit("RABBITMQ-UI"),
        16443 => reveal_strlit("MICROK8S"),
        27017 => reveal_strlit("MONGODB"),
        27018 => reveal_strlit("MONGODB-SHARD"),
        50000 => reveal_strlit("SAP"),
        _ => reveal_strlit("EPHEMERAL"),
    }
    if registry(port) is Some || is_dynamic_port(port) {
        // Every listed name differs from the fallback in length or in its
        // second letter.
        assert(s.name@.len() != 7 || s.name@[1] != 'n');
    }
}

} // verus!
