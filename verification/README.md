# nginx_loki

Follows nginx access logs and ships their lines to Grafana Loki.

The library under `src/` holds what the shipper decides, with its
contracts proved by Verus:

- `text`: character classes, decimal numbers and string helpers;
- `ip_filter`: IP matchers (addresses, CIDR blocks, ranges, IPv6 prefixes);
- `geoip`: ISO country codes and the database path;
- `config`: the configuration and the label sets of log streams;
- `logs`: parsing of `combined` and JSON log lines;
- `glob_pattern`: glob patterns kept with the text they were compiled from;
- `tailer`: watch entries, line filters, file cursors and the loop's state;
- `loki`: batching and the grouping of lines into streams.

The program under `app/` reads the configuration file, watches the logs
with inotify, looks addresses up in a MaxMind database and pushes batches
over HTTP.
